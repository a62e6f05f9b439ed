//! The instruction decoder: turns a big-endian 2-byte opcode word into a
//! typed [`Instruction`], validating embedded register fields.
//!
//! The word is split into four 4-bit nibbles; fixed nibbles select the
//! operation shape and wildcard nibbles carry register identifiers and
//! immediates. Any `0x0___` pattern not otherwise recognized decodes to
//! the historical "execute machine-language subroutine" opcode, which the
//! execution engine accepts and ignores.

use vstd::prelude::*;

use crate::data_register::DataRegister;
use crate::instruction::Instruction;

verus! {

/// Why a 2-byte word failed to decode.
#[derive(Debug, Clone, Copy, PartialEq, Eq, Structural)]
pub enum InstructionParsingError {
    /// A register field held a value outside the 16 legal identifiers
    /// (defensive: unreachable for a 4-bit field, but the conversion is
    /// fallible by type and the rejection path is implemented).
    InvalidDataRegister(u8),
    /// No nibble pattern matched; carries the whole opcode word.
    InvalidInstruction(u16),
}

/// The big-endian 16-bit opcode word formed by two bytes.
pub open spec fn spec_word(b0: u8, b1: u8) -> u16 {
    ((b0 as int) * 256 + (b1 as int)) as u16
}

/// The 12-bit address field: the low nibble of the first byte and the
/// whole second byte.
pub open spec fn spec_address(b0: u8, b1: u8) -> usize {
    (((b0 & 0x0F) as int) * 256 + (b1 as int)) as usize
}

/// What the decoder yields for a 2-byte word. Register fields are 4-bit
/// and therefore always name one of the 16 legal registers.
pub open spec fn spec_parse(b0: u8, b1: u8) -> Result<Instruction, InstructionParsingError> {
    let n0 = b0 >> 4;
    let n1 = b0 & 0x0F;
    let n2 = b1 >> 4;
    let n3 = b1 & 0x0F;
    let vx = DataRegister::spec_from_index(n1);
    let vy = DataRegister::spec_from_index(n2);
    let address = spec_address(b0, b1);
    let num = b1;
    if n0 == 0x0 {
        if n1 == 0x0 && n2 == 0xE && n3 == 0x0 {
            Ok(Instruction::ClearScreen)
        } else if n1 == 0x0 && n2 == 0xE && n3 == 0xE {
            Ok(Instruction::ReturnFromSubroutine)
        } else {
            Ok(Instruction::ExecuteMachineLanguageSubroutine { address })
        }
    } else if n0 == 0x1 {
        Ok(Instruction::JumpToAddress { address })
    } else if n0 == 0x2 {
        Ok(Instruction::ExecuteSubroutine { address })
    } else if n0 == 0x3 {
        Ok(Instruction::SkipIfVxEqualsNum { vx, num })
    } else if n0 == 0x4 {
        Ok(Instruction::SkipIfVxNotEqualNum { vx, num })
    } else if n0 == 0x5 && n3 == 0x0 {
        Ok(Instruction::SkipIfVxEqualsVy { vx, vy })
    } else if n0 == 0x6 {
        Ok(Instruction::StoreNumInVx { vx, num })
    } else if n0 == 0x7 {
        Ok(Instruction::AddNumToVx { vx, num })
    } else if n0 == 0x8 && n3 == 0x0 {
        Ok(Instruction::StoreVyInVx { vx, vy })
    } else if n0 == 0x8 && n3 == 0x1 {
        Ok(Instruction::SetVxToVxOrVy { vx, vy })
    } else if n0 == 0x8 && n3 == 0x2 {
        Ok(Instruction::SetVxToVxAndVy { vx, vy })
    } else if n0 == 0x8 && n3 == 0x3 {
        Ok(Instruction::SetVxToVxXorVy { vx, vy })
    } else if n0 == 0x8 && n3 == 0x4 {
        Ok(Instruction::AddVyToVx { vx, vy })
    } else if n0 == 0x8 && n3 == 0x5 {
        Ok(Instruction::SubtractVyFromVx { vx, vy })
    } else if n0 == 0x8 && n3 == 0x6 {
        Ok(Instruction::ShiftVyRightStoreInVx { vx, vy })
    } else if n0 == 0x8 && n3 == 0x7 {
        Ok(Instruction::SetVxToVyMinusVx { vx, vy })
    } else if n0 == 0x8 && n3 == 0xE {
        Ok(Instruction::ShiftVyLeftStoreInVx { vx, vy })
    } else if n0 == 0x9 && n3 == 0x0 {
        Ok(Instruction::SkipIfVxNotEqualVy { vx, vy })
    } else if n0 == 0xA {
        Ok(Instruction::StoreAddressInAddressRegister { address })
    } else if n0 == 0xB {
        Ok(Instruction::JumpToAddressPlusV0 { address })
    } else if n0 == 0xC {
        Ok(Instruction::SetVxToRandomWithMask { vx, mask: num })
    } else if n0 == 0xD {
        Ok(Instruction::DrawSpriteAtVxVy { vx, vy, byte_count: n3 })
    } else if n0 == 0xE && n2 == 0x9 && n3 == 0xE {
        Ok(Instruction::SkipIfKeyInVxPressed { vx })
    } else if n0 == 0xE && n2 == 0xA && n3 == 0x1 {
        Ok(Instruction::SkipIfKeyInVxNotPressed { vx })
    } else if n0 == 0xF && n2 == 0x0 && n3 == 0x7 {
        Ok(Instruction::StoreDelayTimerInVx { vx })
    } else if n0 == 0xF && n2 == 0x0 && n3 == 0xA {
        Ok(Instruction::WaitForKeypressStoreInVx { vx })
    } else if n0 == 0xF && n2 == 0x1 && n3 == 0x5 {
        Ok(Instruction::SetDelayTimerToVx { vx })
    } else if n0 == 0xF && n2 == 0x1 && n3 == 0x8 {
        Ok(Instruction::SetSoundTimerToVx { vx })
    } else if n0 == 0xF && n2 == 0x1 && n3 == 0xE {
        Ok(Instruction::AddVxToAddressRegister { vx })
    } else if n0 == 0xF && n2 == 0x2 && n3 == 0x9 {
        Ok(Instruction::SetAddressRegisterToSpriteAddressOfSpriteInVx { vx })
    } else if n0 == 0xF && n2 == 0x3 && n3 == 0x3 {
        Ok(Instruction::StoreBCDOfVx { vx })
    } else if n0 == 0xF && n2 == 0x5 && n3 == 0x5 {
        Ok(Instruction::StoreRegistersInMemory { vx })
    } else if n0 == 0xF && n2 == 0x6 && n3 == 0x5 {
        Ok(Instruction::FillRegistersFromMemory { vx })
    } else {
        Err(InstructionParsingError::InvalidInstruction(spec_word(b0, b1)))
    }
}

/// Every instruction the decoder yields is valid: its address field fits
/// 12 bits and its sprite byte count fits 4 bits.
pub proof fn lemma_spec_parse_valid(b0: u8, b1: u8)
    ensures
        spec_parse(b0, b1) matches Ok(i) ==> i.inv(),
{
    assert(b0 & 0x0F < 16) by (bit_vector);
    assert(b1 & 0x0F < 16) by (bit_vector);
}

/// Extract the register identifier held in a 4-bit field, rejecting
/// values outside the legal range (defensive: a nibble is always legal).
fn parse_register(nibble: u8) -> (r: Result<DataRegister, InstructionParsingError>)
    ensures
        match r {
            Ok(d) => nibble < 16 && d == DataRegister::spec_from_index(nibble),
            Err(e) => nibble >= 16 && e == InstructionParsingError::InvalidDataRegister(nibble),
        },
{
    match DataRegister::try_from_u8(nibble) {
        Ok(d) => Ok(d),
        Err(e) => Err(InstructionParsingError::InvalidDataRegister(e)),
    }
}

impl Instruction {
    /// Decode a big-endian 2-byte opcode word.
    pub fn parse(b0: u8, b1: u8) -> (r: Result<Instruction, InstructionParsingError>)
        ensures
            r == spec_parse(b0, b1),
            r matches Ok(i) ==> i.inv(),
    {
        proof {
            lemma_spec_parse_valid(b0, b1);
            assert(b0 & 0x0F < 16) by (bit_vector);
            assert(b1 & 0x0F < 16) by (bit_vector);
            assert(b1 >> 4 < 16) by (bit_vector);
        }
        let n0 = b0 >> 4;
        let n1 = b0 & 0x0F;
        let n2 = b1 >> 4;
        let n3 = b1 & 0x0F;
        let address = ((b0 & 0x0F) as usize) * 256 + (b1 as usize);
        let num = b1;
        let word = (b0 as u16) * 256 + (b1 as u16);
        match (n0, n1, n2, n3) {
            (0x0, 0x0, 0xE, 0x0) => Ok(Instruction::ClearScreen),
            (0x0, 0x0, 0xE, 0xE) => Ok(Instruction::ReturnFromSubroutine),
            (0x0, _, _, _) => Ok(Instruction::ExecuteMachineLanguageSubroutine { address }),
            (0x1, _, _, _) => Ok(Instruction::JumpToAddress { address }),
            (0x2, _, _, _) => Ok(Instruction::ExecuteSubroutine { address }),
            (0x3, _, _, _) => Ok(Instruction::SkipIfVxEqualsNum { vx: parse_register(n1)?, num }),
            (0x4, _, _, _) => Ok(Instruction::SkipIfVxNotEqualNum { vx: parse_register(n1)?, num }),
            (0x5, _, _, 0x0) => Ok(
                Instruction::SkipIfVxEqualsVy { vx: parse_register(n1)?, vy: parse_register(n2)? },
            ),
            (0x6, _, _, _) => Ok(Instruction::StoreNumInVx { vx: parse_register(n1)?, num }),
            (0x7, _, _, _) => Ok(Instruction::AddNumToVx { vx: parse_register(n1)?, num }),
            (0x8, _, _, 0x0) => Ok(
                Instruction::StoreVyInVx { vx: parse_register(n1)?, vy: parse_register(n2)? },
            ),
            (0x8, _, _, 0x1) => Ok(
                Instruction::SetVxToVxOrVy { vx: parse_register(n1)?, vy: parse_register(n2)? },
            ),
            (0x8, _, _, 0x2) => Ok(
                Instruction::SetVxToVxAndVy { vx: parse_register(n1)?, vy: parse_register(n2)? },
            ),
            (0x8, _, _, 0x3) => Ok(
                Instruction::SetVxToVxXorVy { vx: parse_register(n1)?, vy: parse_register(n2)? },
            ),
            (0x8, _, _, 0x4) => Ok(
                Instruction::AddVyToVx { vx: parse_register(n1)?, vy: parse_register(n2)? },
            ),
            (0x8, _, _, 0x5) => Ok(
                Instruction::SubtractVyFromVx { vx: parse_register(n1)?, vy: parse_register(n2)? },
            ),
            (0x8, _, _, 0x6) => Ok(
                Instruction::ShiftVyRightStoreInVx {
                    vx: parse_register(n1)?,
                    vy: parse_register(n2)?,
                },
            ),
            (0x8, _, _, 0x7) => Ok(
                Instruction::SetVxToVyMinusVx { vx: parse_register(n1)?, vy: parse_register(n2)? },
            ),
            (0x8, _, _, 0xE) => Ok(
                Instruction::ShiftVyLeftStoreInVx {
                    vx: parse_register(n1)?,
                    vy: parse_register(n2)?,
                },
            ),
            (0x9, _, _, 0x0) => Ok(
                Instruction::SkipIfVxNotEqualVy { vx: parse_register(n1)?, vy: parse_register(n2)? },
            ),
            (0xA, _, _, _) => Ok(Instruction::StoreAddressInAddressRegister { address }),
            (0xB, _, _, _) => Ok(Instruction::JumpToAddressPlusV0 { address }),
            (0xC, _, _, _) => Ok(
                Instruction::SetVxToRandomWithMask { vx: parse_register(n1)?, mask: num },
            ),
            (0xD, _, _, _) => Ok(
                Instruction::DrawSpriteAtVxVy {
                    vx: parse_register(n1)?,
                    vy: parse_register(n2)?,
                    byte_count: n3,
                },
            ),
            (0xE, _, 0x9, 0xE) => Ok(Instruction::SkipIfKeyInVxPressed { vx: parse_register(n1)? }),
            (0xE, _, 0xA, 0x1) => Ok(
                Instruction::SkipIfKeyInVxNotPressed { vx: parse_register(n1)? },
            ),
            (0xF, _, 0x0, 0x7) => Ok(Instruction::StoreDelayTimerInVx { vx: parse_register(n1)? }),
            (0xF, _, 0x0, 0xA) => Ok(
                Instruction::WaitForKeypressStoreInVx { vx: parse_register(n1)? },
            ),
            (0xF, _, 0x1, 0x5) => Ok(Instruction::SetDelayTimerToVx { vx: parse_register(n1)? }),
            (0xF, _, 0x1, 0x8) => Ok(Instruction::SetSoundTimerToVx { vx: parse_register(n1)? }),
            (0xF, _, 0x1, 0xE) => Ok(
                Instruction::AddVxToAddressRegister { vx: parse_register(n1)? },
            ),
            (0xF, _, 0x2, 0x9) => Ok(
                Instruction::SetAddressRegisterToSpriteAddressOfSpriteInVx {
                    vx: parse_register(n1)?,
                },
            ),
            (0xF, _, 0x3, 0x3) => Ok(Instruction::StoreBCDOfVx { vx: parse_register(n1)? }),
            (0xF, _, 0x5, 0x5) => Ok(Instruction::StoreRegistersInMemory { vx: parse_register(n1)? }),
            (0xF, _, 0x6, 0x5) => Ok(
                Instruction::FillRegistersFromMemory { vx: parse_register(n1)? },
            ),
            _ => Err(InstructionParsingError::InvalidInstruction(word)),
        }
    }
}

} // verus!
