//! The closed set of decoded instruction shapes. A value of
//! [`Instruction`] is what the decoder produces from a 2-byte opcode
//! word and what the execution engine dispatches on.

use vstd::prelude::*;

use crate::data_register::DataRegister;

verus! {

/// One decoded instruction of the 35-opcode repertoire.
#[derive(Debug, Clone, Copy, PartialEq, Eq, Structural)]
pub enum Instruction {
    ExecuteMachineLanguageSubroutine { address: usize },
    ClearScreen,
    ReturnFromSubroutine,
    JumpToAddress { address: usize },
    ExecuteSubroutine { address: usize },
    SkipIfVxEqualsNum { vx: DataRegister, num: u8 },
    SkipIfVxNotEqualNum { vx: DataRegister, num: u8 },
    SkipIfVxEqualsVy { vx: DataRegister, vy: DataRegister },
    StoreNumInVx { vx: DataRegister, num: u8 },
    AddNumToVx { vx: DataRegister, num: u8 },
    StoreVyInVx { vx: DataRegister, vy: DataRegister },
    SetVxToVxOrVy { vx: DataRegister, vy: DataRegister },
    SetVxToVxAndVy { vx: DataRegister, vy: DataRegister },
    SetVxToVxXorVy { vx: DataRegister, vy: DataRegister },
    AddVyToVx { vx: DataRegister, vy: DataRegister },
    SubtractVyFromVx { vx: DataRegister, vy: DataRegister },
    ShiftVyRightStoreInVx { vx: DataRegister, vy: DataRegister },
    SetVxToVyMinusVx { vx: DataRegister, vy: DataRegister },
    ShiftVyLeftStoreInVx { vx: DataRegister, vy: DataRegister },
    SkipIfVxNotEqualVy { vx: DataRegister, vy: DataRegister },
    StoreAddressInAddressRegister { address: usize },
    JumpToAddressPlusV0 { address: usize },
    SetVxToRandomWithMask { vx: DataRegister, mask: u8 },
    DrawSpriteAtVxVy { vx: DataRegister, vy: DataRegister, byte_count: u8 },
    SkipIfKeyInVxPressed { vx: DataRegister },
    SkipIfKeyInVxNotPressed { vx: DataRegister },
    StoreDelayTimerInVx { vx: DataRegister },
    WaitForKeypressStoreInVx { vx: DataRegister },
    SetDelayTimerToVx { vx: DataRegister },
    SetSoundTimerToVx { vx: DataRegister },
    AddVxToAddressRegister { vx: DataRegister },
    SetAddressRegisterToSpriteAddressOfSpriteInVx { vx: DataRegister },
    StoreBCDOfVx { vx: DataRegister },
    StoreRegistersInMemory { vx: DataRegister },
    FillRegistersFromMemory { vx: DataRegister },
}

impl Instruction {
    /// Validity of an instruction value: its immediate fields fit the
    /// bit widths they are decoded from (a 12-bit address, a 4-bit
    /// sprite byte count). Every instruction the decoder produces
    /// satisfies this.
    pub open spec fn inv(self) -> bool {
        match self {
            Instruction::ExecuteMachineLanguageSubroutine { address } => address <= 0xFFF,
            Instruction::JumpToAddress { address } => address <= 0xFFF,
            Instruction::ExecuteSubroutine { address } => address <= 0xFFF,
            Instruction::StoreAddressInAddressRegister { address } => address <= 0xFFF,
            Instruction::JumpToAddressPlusV0 { address } => address <= 0xFFF,
            Instruction::DrawSpriteAtVxVy { byte_count, .. } => byte_count <= 0xF,
            _ => true,
        }
    }
}

} // verus!
