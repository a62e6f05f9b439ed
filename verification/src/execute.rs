//! The execution engine: a state-transition relation from machine state
//! and decoded instruction to machine state, with the exact flag,
//! wraparound and failure semantics of each instruction, and its
//! verified implementation.

use vstd::prelude::*;

use crate::constants::{
    FONT_SPRITE_MEMORY_LOCATION, FONT_SPRITE_SIZE, INSTRUCTION_SIZE, MEMORY_SIZE,
};
use crate::data_register::DataRegister;
use crate::draw::{
    lemma_draw_partial_step, lemma_draw_partial_zero, spec_draw, spec_draw_collision,
    spec_draw_collision_partial, spec_draw_partial,
};
use crate::instruction::Instruction;
use crate::keyboard::{Key, KeyState};
use crate::machine::{Blocked, Chip8, MachineView};
use crate::screen::{XorPixelErased, screen_grid_wf, spec_blank_screen};
use crate::sprite::PixelView;

verus! {

/// Why executing an instruction failed.
#[derive(Debug, Clone, Copy, PartialEq, Eq, Structural)]
pub enum InstructionExecutionError {
    /// Return with an empty call stack.
    InvalidReturn,
    /// A memory-indexed instruction reached outside memory; carries the
    /// offending address.
    InvalidMemoryAccess(usize),
    /// A key-state query named a register value outside the 16 key
    /// codes; carries the rejected value.
    InvalidKey(u8),
}

/// The wrapped 8-bit sum.
pub open spec fn spec_wrap_add(x: u8, y: u8) -> u8 {
    ((x + y) % 256) as u8
}

/// Flag value after an add: 1 exactly when a carry occurred.
pub open spec fn spec_add_carry(x: u8, y: u8) -> u8 {
    if x + y > 255 {
        1u8
    } else {
        0u8
    }
}

/// The wrapped 8-bit difference `x - y`.
pub open spec fn spec_wrap_sub(x: u8, y: u8) -> u8 {
    if x >= y {
        (x - y) as u8
    } else {
        (x - y + 256) as u8
    }
}

/// Flag value after a subtract: 1 exactly when no borrow occurred.
pub open spec fn spec_sub_no_borrow(x: u8, y: u8) -> u8 {
    if x >= y {
        1u8
    } else {
        0u8
    }
}

/// How many of the `n` byte transfers of a block instruction starting
/// at `addr` land inside memory before the first out-of-range address.
pub open spec fn spec_block_count(addr: int, n: int) -> int {
    if addr >= MEMORY_SIZE {
        0
    } else if addr + n <= MEMORY_SIZE {
        n
    } else {
        MEMORY_SIZE - addr
    }
}

/// Memory after a register dump of registers `0..n` to `addr`: the
/// transfers that were in range have happened; nothing is rolled back.
pub open spec fn spec_block_store_mem(mem: Seq<u8>, regs: Seq<u8>, addr: int, n: int) -> Seq<u8> {
    Seq::new(
        MEMORY_SIZE as nat,
        |j: int|
            if addr <= j < addr + spec_block_count(addr, n) {
                regs[j - addr]
            } else {
                mem[j]
            },
    )
}

/// Registers after a register load of registers `0..n` from `addr`:
/// the transfers that were in range have happened; nothing is rolled
/// back.
pub open spec fn spec_block_fill_regs(regs: Seq<u8>, mem: Seq<u8>, addr: int, n: int) -> Seq<u8> {
    Seq::new(
        16,
        |j: int|
            if j < spec_block_count(addr, n) {
                mem[addr + j]
            } else {
                regs[j]
            },
    )
}

/// The arithmetic an instruction performs on addresses stays within the
/// machine word. These are machine limits, not semantic restrictions:
/// on inputs outside them the address computation itself would exceed
/// `usize`.
pub open spec fn spec_no_overflow(pre: MachineView, instruction: Instruction) -> bool {
    match instruction {
        Instruction::ExecuteSubroutine { .. } => pre.pc + INSTRUCTION_SIZE <= usize::MAX,
        Instruction::SkipIfVxEqualsNum { .. } => pre.pc + INSTRUCTION_SIZE <= usize::MAX,
        Instruction::SkipIfVxNotEqualNum { .. } => pre.pc + INSTRUCTION_SIZE <= usize::MAX,
        Instruction::SkipIfVxEqualsVy { .. } => pre.pc + INSTRUCTION_SIZE <= usize::MAX,
        Instruction::SkipIfVxNotEqualVy { .. } => pre.pc + INSTRUCTION_SIZE <= usize::MAX,
        Instruction::SkipIfKeyInVxPressed { .. } => pre.pc + INSTRUCTION_SIZE <= usize::MAX,
        Instruction::SkipIfKeyInVxNotPressed { .. } => pre.pc + INSTRUCTION_SIZE <= usize::MAX,
        Instruction::JumpToAddressPlusV0 { address } => address + pre.regs[0] <= usize::MAX,
        Instruction::AddVxToAddressRegister { vx } => pre.addr + pre.regs[vx.idx()] <= usize::MAX,
        Instruction::StoreBCDOfVx { .. } => pre.addr + 2 <= usize::MAX,
        Instruction::DrawSpriteAtVxVy { .. } => pre.addr + 255 <= usize::MAX,
        Instruction::StoreRegistersInMemory { .. } => pre.addr + 16 <= usize::MAX,
        Instruction::FillRegistersFromMemory { .. } => pre.addr + 16 <= usize::MAX,
        _ => true,
    }
}

/// The exact state transition of one instruction: `post` and `r` are
/// what executing `instruction` in state `pre` leaves behind. Apart
/// from the draw of a random value, `post` and `r` are functions of
/// `pre` and `instruction`.
#[verifier::opaque]
pub open spec fn execute_rel(
    pre: MachineView,
    post: MachineView,
    instruction: Instruction,
    r: Result<(), InstructionExecutionError>,
) -> bool {
    match instruction {
        Instruction::ExecuteMachineLanguageSubroutine { .. } => r is Ok && post == pre,
        Instruction::ClearScreen => r is Ok && post == (MachineView {
            screen: spec_blank_screen(),
            ..pre
        }),
        Instruction::ReturnFromSubroutine => if pre.stack.len() == 0 {
            &&& r matches Err(e) && e == InstructionExecutionError::InvalidReturn
            &&& post == pre
        } else {
            &&& r is Ok
            &&& post == (MachineView {
                pc: pre.stack.last(),
                stack: pre.stack.drop_last(),
                in_jump: true,
                ..pre
            })
        },
        Instruction::JumpToAddress { address } => r is Ok && post == (MachineView {
            pc: address,
            in_jump: true,
            ..pre
        }),
        Instruction::ExecuteSubroutine { address } => r is Ok && post == (MachineView {
            stack: pre.stack.push((pre.pc + INSTRUCTION_SIZE) as usize),
            pc: address,
            in_jump: true,
            ..pre
        }),
        Instruction::SkipIfVxEqualsNum { vx, num } => r is Ok && post == (MachineView {
            pc: if pre.regs[vx.idx()] == num {
                (pre.pc + INSTRUCTION_SIZE) as usize
            } else {
                pre.pc
            },
            ..pre
        }),
        Instruction::SkipIfVxNotEqualNum { vx, num } => r is Ok && post == (MachineView {
            pc: if pre.regs[vx.idx()] != num {
                (pre.pc + INSTRUCTION_SIZE) as usize
            } else {
                pre.pc
            },
            ..pre
        }),
        Instruction::SkipIfVxEqualsVy { vx, vy } => r is Ok && post == (MachineView {
            pc: if pre.regs[vx.idx()] == pre.regs[vy.idx()] {
                (pre.pc + INSTRUCTION_SIZE) as usize
            } else {
                pre.pc
            },
            ..pre
        }),
        Instruction::StoreNumInVx { vx, num } => r is Ok && post == (MachineView {
            regs: pre.regs.update(vx.idx(), num),
            ..pre
        }),
        Instruction::AddNumToVx { vx, num } => {
            let x = pre.regs[vx.idx()];
            &&& r is Ok
            &&& post == (MachineView {
                regs: pre.regs.update(vx.idx(), spec_wrap_add(x, num)).update(
                    DataRegister::VF.idx(),
                    spec_add_carry(x, num),
                ),
                ..pre
            })
        },
        Instruction::StoreVyInVx { vx, vy } => r is Ok && post == (MachineView {
            regs: pre.regs.update(vx.idx(), pre.regs[vy.idx()]),
            ..pre
        }),
        Instruction::SetVxToVxOrVy { vx, vy } => r is Ok && post == (MachineView {
            regs: pre.regs.update(vx.idx(), pre.regs[vx.idx()] | pre.regs[vy.idx()]),
            ..pre
        }),
        Instruction::SetVxToVxAndVy { vx, vy } => r is Ok && post == (MachineView {
            regs: pre.regs.update(vx.idx(), pre.regs[vx.idx()] & pre.regs[vy.idx()]),
            ..pre
        }),
        Instruction::SetVxToVxXorVy { vx, vy } => r is Ok && post == (MachineView {
            regs: pre.regs.update(vx.idx(), pre.regs[vx.idx()] ^ pre.regs[vy.idx()]),
            ..pre
        }),
        Instruction::AddVyToVx { vx, vy } => {
            let x = pre.regs[vx.idx()];
            let y = pre.regs[vy.idx()];
            &&& r is Ok
            &&& post == (MachineView {
                regs: pre.regs.update(vx.idx(), spec_wrap_add(x, y)).update(
                    DataRegister::VF.idx(),
                    spec_add_carry(x, y),
                ),
                ..pre
            })
        },
        Instruction::SubtractVyFromVx { vx, vy } => {
            let x = pre.regs[vx.idx()];
            let y = pre.regs[vy.idx()];
            &&& r is Ok
            &&& post == (MachineView {
                regs: pre.regs.update(vx.idx(), spec_wrap_sub(x, y)).update(
                    DataRegister::VF.idx(),
                    spec_sub_no_borrow(x, y),
                ),
                ..pre
            })
        },
        Instruction::ShiftVyRightStoreInVx { vx, vy } => {
            let regs1 = pre.regs.update(DataRegister::VF.idx(), pre.regs[vy.idx()] & 1);
            let regs2 = regs1.update(vx.idx(), regs1[vy.idx()] >> 1u8);
            r is Ok && post == (MachineView { regs: regs2, ..pre })
        },
        Instruction::SetVxToVyMinusVx { vx, vy } => {
            let x = pre.regs[vx.idx()];
            let y = pre.regs[vy.idx()];
            &&& r is Ok
            &&& post == (MachineView {
                regs: pre.regs.update(vx.idx(), spec_wrap_sub(y, x)).update(
                    DataRegister::VF.idx(),
                    spec_sub_no_borrow(y, x),
                ),
                ..pre
            })
        },
        Instruction::ShiftVyLeftStoreInVx { vx, vy } => {
            let regs1 = pre.regs.update(DataRegister::VF.idx(), pre.regs[vy.idx()] >> 7u8);
            let regs2 = regs1.update(vx.idx(), ((regs1[vy.idx()] % 128) * 2) as u8);
            r is Ok && post == (MachineView { regs: regs2, ..pre })
        },
        Instruction::SkipIfVxNotEqualVy { vx, vy } => r is Ok && post == (MachineView {
            pc: if pre.regs[vx.idx()] != pre.regs[vy.idx()] {
                (pre.pc + INSTRUCTION_SIZE) as usize
            } else {
                pre.pc
            },
            ..pre
        }),
        Instruction::StoreAddressInAddressRegister { address } => r is Ok && post == (MachineView {
            addr: address,
            ..pre
        }),
        Instruction::JumpToAddressPlusV0 { address } => r is Ok && post == (MachineView {
            pc: (address + pre.regs[0]) as usize,
            in_jump: true,
            ..pre
        }),
        Instruction::SetVxToRandomWithMask { vx, mask } => {
            &&& r is Ok
            &&& exists|b: u8|
                post == (MachineView { regs: pre.regs.update(vx.idx(), b & mask), ..pre })
        },
        Instruction::DrawSpriteAtVxVy { vx, vy, byte_count } => {
            let n = byte_count as int;
            if pre.addr + n > MEMORY_SIZE {
                &&& r matches Err(e) && e == InstructionExecutionError::InvalidMemoryAccess(
                    (pre.addr + n) as usize,
                )
                &&& post == pre
            } else {
                let sprite = pre.mem.subrange(pre.addr as int, pre.addr + n);
                let sx = pre.regs[vx.idx()] as int;
                let sy = pre.regs[vy.idx()] as int;
                let collision = spec_draw_collision(pre.screen, sprite, sx, sy);
                &&& r is Ok
                &&& post == (MachineView {
                    screen: spec_draw(pre.screen, sprite, sx, sy),
                    screen_dirty: pre.screen_dirty || n > 0,
                    regs: pre.regs.update(
                        DataRegister::VF.idx(),
                        if collision {
                            1u8
                        } else {
                            0u8
                        },
                    ),
                    ..pre
                })
            }
        },
        Instruction::SkipIfKeyInVxPressed { vx } => {
            let code = pre.regs[vx.idx()];
            if code >= 16 {
                &&& r matches Err(e) && e == InstructionExecutionError::InvalidKey(code)
                &&& post == pre
            } else {
                &&& r is Ok
                &&& post == (MachineView {
                    pc: if pre.keys[code as int] is Pressed {
                        (pre.pc + INSTRUCTION_SIZE) as usize
                    } else {
                        pre.pc
                    },
                    ..pre
                })
            }
        },
        Instruction::SkipIfKeyInVxNotPressed { vx } => {
            let code = pre.regs[vx.idx()];
            if code >= 16 {
                &&& r matches Err(e) && e == InstructionExecutionError::InvalidKey(code)
                &&& post == pre
            } else {
                &&& r is Ok
                &&& post == (MachineView {
                    pc: if pre.keys[code as int] is Released {
                        (pre.pc + INSTRUCTION_SIZE) as usize
                    } else {
                        pre.pc
                    },
                    ..pre
                })
            }
        },
        Instruction::StoreDelayTimerInVx { vx } => r is Ok && post == (MachineView {
            regs: pre.regs.update(vx.idx(), pre.delay),
            ..pre
        }),
        Instruction::WaitForKeypressStoreInVx { vx } => r is Ok && post == (MachineView {
            blocked: Blocked::WaitingOnKeyUp(vx),
            ..pre
        }),
        Instruction::SetDelayTimerToVx { vx } => r is Ok && post == (MachineView {
            delay: pre.regs[vx.idx()],
            ..pre
        }),
        Instruction::SetSoundTimerToVx { vx } => r is Ok && post == (MachineView {
            sound: pre.regs[vx.idx()],
            ..pre
        }),
        Instruction::AddVxToAddressRegister { vx } => r is Ok && post == (MachineView {
            addr: (pre.addr + pre.regs[vx.idx()]) as usize,
            ..pre
        }),
        Instruction::SetAddressRegisterToSpriteAddressOfSpriteInVx { vx } => r is Ok && post == (
        MachineView {
            addr: (FONT_SPRITE_MEMORY_LOCATION + (pre.regs[vx.idx()] as int) * (
            FONT_SPRITE_SIZE as int)) as usize,
            ..pre
        }),
        Instruction::StoreBCDOfVx { vx } => {
            if pre.addr + 2 >= MEMORY_SIZE {
                &&& r matches Err(e) && e == InstructionExecutionError::InvalidMemoryAccess(
                    (pre.addr + 2) as usize,
                )
                &&& post == pre
            } else {
                let num = pre.regs[vx.idx()];
                &&& r is Ok
                &&& post == (MachineView {
                    mem: pre.mem.update(pre.addr as int, (num / 100) as u8).update(
                        pre.addr + 1,
                        ((num % 100) / 10) as u8,
                    ).update(pre.addr + 2, (num % 10) as u8),
                    ..pre
                })
            }
        },
        Instruction::StoreRegistersInMemory { vx } => {
            let n = vx.idx() + 1;
            let post_mem = spec_block_store_mem(pre.mem, pre.regs, pre.addr as int, n);
            &&& post == (MachineView { mem: post_mem, ..pre })
            &&& if pre.addr + n <= MEMORY_SIZE {
                r is Ok
            } else {
                r matches Err(e) && e == InstructionExecutionError::InvalidMemoryAccess(
                    (pre.addr + spec_block_count(pre.addr as int, n)) as usize,
                )
            }
        },
        Instruction::FillRegistersFromMemory { vx } => {
            let n = vx.idx() + 1;
            let post_regs = spec_block_fill_regs(pre.regs, pre.mem, pre.addr as int, n);
            &&& post == (MachineView { regs: post_regs, ..pre })
            &&& if pre.addr + n <= MEMORY_SIZE {
                r is Ok
            } else {
                r matches Err(e) && e == InstructionExecutionError::InvalidMemoryAccess(
                    (pre.addr + spec_block_count(pre.addr as int, n)) as usize,
                )
            }
        },
    }
}

/// Relies on rand::random: draws a uniformly random byte. Nothing is
/// assumed of the result beyond its type.
#[verifier::external_body]
fn random_byte() -> u8 {
    rand::random::<u8>()
}

/// The instruction shapes handled by the control-flow dispatch group.
spec fn is_control_shape(instruction: Instruction) -> bool {
    match instruction {
        Instruction::ExecuteMachineLanguageSubroutine { .. } => true,
        Instruction::ClearScreen => true,
        Instruction::ReturnFromSubroutine => true,
        Instruction::JumpToAddress { .. } => true,
        Instruction::ExecuteSubroutine { .. } => true,
        Instruction::SkipIfVxEqualsNum { .. } => true,
        Instruction::SkipIfVxNotEqualNum { .. } => true,
        Instruction::SkipIfVxEqualsVy { .. } => true,
        Instruction::SkipIfVxNotEqualVy { .. } => true,
        Instruction::StoreAddressInAddressRegister { .. } => true,
        Instruction::JumpToAddressPlusV0 { .. } => true,
        _ => false,
    }
}

/// The instruction shapes handled by the register-arithmetic dispatch
/// group.
spec fn is_register_shape(instruction: Instruction) -> bool {
    match instruction {
        Instruction::StoreNumInVx { .. } => true,
        Instruction::AddNumToVx { .. } => true,
        Instruction::StoreVyInVx { .. } => true,
        Instruction::SetVxToVxOrVy { .. } => true,
        Instruction::SetVxToVxAndVy { .. } => true,
        Instruction::SetVxToVxXorVy { .. } => true,
        Instruction::AddVyToVx { .. } => true,
        Instruction::SubtractVyFromVx { .. } => true,
        Instruction::ShiftVyRightStoreInVx { .. } => true,
        Instruction::SetVxToVyMinusVx { .. } => true,
        Instruction::ShiftVyLeftStoreInVx { .. } => true,
        Instruction::SetVxToRandomWithMask { .. } => true,
        _ => false,
    }
}

impl Chip8 {
    /// Sprite draw: XOR-compose `byte_count` rows of 8 pixels read from
    /// memory at the address register onto the screen at the wrapped
    /// coordinates held in `vx`, `vy`; flag 1 exactly when an `On`
    /// pixel was erased.
    fn exec_draw_sprite(&mut self, vx: DataRegister, vy: DataRegister, byte_count: u8) -> (r:
        Result<(), InstructionExecutionError>)
        requires
            old(self).wf(),
            byte_count <= 0xF,
            old(self)@.addr + 255 <= usize::MAX,
        ensures
            final (self).wf(),
            execute_rel(
                old(self)@,
                final (self)@,
                Instruction::DrawSpriteAtVxVy { vx, vy, byte_count },
                r,
            ),
    {
        proof {
            reveal(execute_rel);
        }
        let byte_count_us = byte_count as usize;
        let sprite = match self.memory.read_sprite(self.address_register, byte_count_us) {
            Some(s) => s,
            None => {
                return Err(
                    InstructionExecutionError::InvalidMemoryAccess(
                        self.address_register + byte_count_us,
                    ),
                );
            },
        };
        let sprite_x_pos = self.data_registers.get(vx) as usize;
        let sprite_y_pos = self.data_registers.get(vy) as usize;
        let ghost pre = self@;
        let ghost spr = sprite.data@;
        let ghost sx = sprite_x_pos as int;
        let ghost sy = sprite_y_pos as int;
        proof {
            lemma_draw_partial_zero(pre.screen, spr, sx, sy);
        }
        let mut pixel_erased = XorPixelErased::No;
        let height = sprite.height();
        let width = sprite.width();
        let mut y: usize = 0;
        while y < height
            invariant
                self.wf(),
                y <= height,
                width == 8,
                sprite.wf(),
                sprite.data@ == spr,
                sprite.height == height,
                height == spr.len(),
                height <= 0xF,
                sprite_x_pos <= 255,
                sprite_y_pos <= 255,
                sx == sprite_x_pos as int,
                sy == sprite_y_pos as int,
                screen_grid_wf(pre.screen),
                pre == old(self)@,
                self@.mem == pre.mem,
                self@.regs == pre.regs,
                self@.addr == pre.addr,
                self@.sound == pre.sound,
                self@.delay == pre.delay,
                self@.pc == pre.pc,
                self@.keys == pre.keys,
                self@.stack == pre.stack,
                self@.in_jump == pre.in_jump,
                self@.blocked == pre.blocked,
                self@.screen == spec_draw_partial(pre.screen, spr, sx, sy, 8 * y),
                (pixel_erased == XorPixelErased::Yes) == spec_draw_collision_partial(
                    pre.screen,
                    spr,
                    sx,
                    sy,
                    8 * y,
                ),
                self@.screen_dirty == (pre.screen_dirty || 8 * y > 0),
            decreases height - y,
        {
            let mut x: usize = 0;
            while x < width
                invariant
                    self.wf(),
                    y < height,
                    x <= width,
                    width == 8,
                    sprite.wf(),
                    sprite.data@ == spr,
                    sprite.height == height,
                    height == spr.len(),
                    height <= 0xF,
                    sprite_x_pos <= 255,
                    sprite_y_pos <= 255,
                    sx == sprite_x_pos as int,
                    sy == sprite_y_pos as int,
                    screen_grid_wf(pre.screen),
                    pre == old(self)@,
                    self@.mem == pre.mem,
                    self@.regs == pre.regs,
                    self@.addr == pre.addr,
                    self@.sound == pre.sound,
                    self@.delay == pre.delay,
                    self@.pc == pre.pc,
                    self@.keys == pre.keys,
                    self@.stack == pre.stack,
                    self@.in_jump == pre.in_jump,
                    self@.blocked == pre.blocked,
                    self@.screen == spec_draw_partial(pre.screen, spr, sx, sy, 8 * y + x),
                    (pixel_erased == XorPixelErased::Yes) == spec_draw_collision_partial(
                        pre.screen,
                        spr,
                        sx,
                        sy,
                        8 * y + x,
                    ),
                    self@.screen_dirty == (pre.screen_dirty || 8 * y + x > 0),
                decreases width - x,
            {
                let pix = sprite.get_pixel_unchecked(x, y);
                proof {
                    lemma_draw_partial_step(pre.screen, spr, sx, sy, y as int, x as int);
                }
                let erased = self.screen.xor_pixel_wrapped_position(
                    sprite_x_pos + x,
                    sprite_y_pos + y,
                    pix,
                );
                if let XorPixelErased::Yes = erased {
                    pixel_erased = XorPixelErased::Yes;
                }
                x += 1;
            }
            y += 1;
        }
        let flag: u8 = match pixel_erased {
            XorPixelErased::Yes => 1,
            XorPixelErased::No => 0,
        };
        self.data_registers.set(DataRegister::VF, flag);
        proof {
            let n = byte_count as int;
            let sprite_bytes = pre.mem.subrange(pre.addr as int, pre.addr + n);
            assert(spr =~= sprite_bytes);
            let collision = spec_draw_collision(pre.screen, sprite_bytes, sx, sy);
            assert(self@ =~~= (MachineView {
                screen: spec_draw(pre.screen, sprite_bytes, sx, sy),
                screen_dirty: pre.screen_dirty || n > 0,
                regs: pre.regs.update(
                    DataRegister::VF.idx(),
                    if collision {
                        1u8
                    } else {
                        0u8
                    },
                ),
                ..pre
            }));
        }
        Ok(())
    }

    /// BCD store: the hundreds, tens and ones digits of `vx` go to
    /// `I`, `I+1`, `I+2`; checked before any write.
    fn exec_store_bcd(&mut self, vx: DataRegister) -> (r: Result<(), InstructionExecutionError>)
        requires
            old(self).wf(),
            old(self)@.addr + 2 <= usize::MAX,
        ensures
            final (self).wf(),
            execute_rel(old(self)@, final (self)@, Instruction::StoreBCDOfVx { vx }, r),
    {
        proof {
            reveal(execute_rel);
        }
        let num = self.data_registers.get(vx);
        if self.address_register + 2 >= MEMORY_SIZE {
            return Err(InstructionExecutionError::InvalidMemoryAccess(self.address_register + 2));
        }
        let addr = self.address_register;
        self.memory.raw_data[addr] = num / 100;
        self.memory.raw_data[addr + 1] = (num % 100) / 10;
        self.memory.raw_data[addr + 2] = num % 10;
        proof {
            assert(self@ =~~= (MachineView {
                mem: old(self)@.mem.update(addr as int, (num / 100) as u8).update(
                    addr + 1,
                    ((num % 100) / 10) as u8,
                ).update(addr + 2, (num % 10) as u8),
                ..old(self)@
            }));
        }
        Ok(())
    }

    /// Block register dump: registers `V0..=vx` to memory at the
    /// address register, ascending, stopping (without rollback) at the
    /// first out-of-range address.
    fn exec_store_registers(&mut self, vx: DataRegister) -> (r: Result<
        (),
        InstructionExecutionError,
    >)
        requires
            old(self).wf(),
            old(self)@.addr + 16 <= usize::MAX,
        ensures
            final (self).wf(),
            execute_rel(old(self)@, final (self)@, Instruction::StoreRegistersInMemory { vx }, r),
    {
        proof {
            reveal(execute_rel);
        }
        let ghost pre = self@;
        let ghost n = vx.idx() + 1;
        let last = vx.as_u8() as usize;
        let mut i: usize = 0;
        while i <= last
            invariant
                self.wf(),
                i <= last + 1,
                last == vx.idx(),
                n == vx.idx() + 1,
                pre == old(self)@,
                pre.addr + 16 <= usize::MAX,
                self.address_register == pre.addr,
                i > 0 ==> pre.addr + i <= MEMORY_SIZE,
                self@.regs == pre.regs,
                self@.addr == pre.addr,
                self@.sound == pre.sound,
                self@.delay == pre.delay,
                self@.pc == pre.pc,
                self@.keys == pre.keys,
                self@.stack == pre.stack,
                self@.screen == pre.screen,
                self@.screen_dirty == pre.screen_dirty,
                self@.in_jump == pre.in_jump,
                self@.blocked == pre.blocked,
                self@.mem.len() == MEMORY_SIZE,
                forall|j: int|
                    0 <= j < MEMORY_SIZE && !(pre.addr <= j < pre.addr + i) ==> self@.mem[j]
                        == pre.mem[j],
                forall|j: int|
                    pre.addr <= j < pre.addr + i ==> self@.mem[j] == pre.regs[j - pre.addr],
            decreases last + 1 - i,
        {
            let memory_address = self.address_register + i;
            if memory_address >= MEMORY_SIZE {
                proof {
                    reveal(execute_rel);
                    assert(i as int == spec_block_count(pre.addr as int, n));
                    assert(self@.mem =~= spec_block_store_mem(pre.mem, pre.regs, pre.addr as int, n));
                    assert(self@ =~~= (MachineView {
                        mem: spec_block_store_mem(pre.mem, pre.regs, pre.addr as int, n),
                        ..pre
                    }));
                }
                return Err(InstructionExecutionError::InvalidMemoryAccess(memory_address));
            }
            let reg = match DataRegister::try_from_u8(i as u8) {
                Ok(d) => d,
                Err(_) => unreached(),
            };
            let value = self.data_registers.get(reg);
            self.memory.raw_data[memory_address] = value;
            i += 1;
        }
        proof {
            assert(i as int == n && pre.addr + n <= MEMORY_SIZE);
            assert(self@.mem =~= spec_block_store_mem(pre.mem, pre.regs, pre.addr as int, n));
            assert(self@ =~~= (MachineView {
                mem: spec_block_store_mem(pre.mem, pre.regs, pre.addr as int, n),
                ..pre
            }));
        }
        Ok(())
    }

    /// Block register load: registers `V0..=vx` filled from memory at
    /// the address register, ascending, stopping (without rollback) at
    /// the first out-of-range address.
    fn exec_fill_registers(&mut self, vx: DataRegister) -> (r: Result<
        (),
        InstructionExecutionError,
    >)
        requires
            old(self).wf(),
            old(self)@.addr + 16 <= usize::MAX,
        ensures
            final (self).wf(),
            execute_rel(old(self)@, final (self)@, Instruction::FillRegistersFromMemory { vx }, r),
    {
        proof {
            reveal(execute_rel);
        }
        let ghost pre = self@;
        let ghost n = vx.idx() + 1;
        let last = vx.as_u8() as usize;
        let mut i: usize = 0;
        while i <= last
            invariant
                self.wf(),
                i <= last + 1,
                last == vx.idx(),
                n == vx.idx() + 1,
                pre == old(self)@,
                pre.addr + 16 <= usize::MAX,
                self.address_register == pre.addr,
                i > 0 ==> pre.addr + i <= MEMORY_SIZE,
                self@.mem == pre.mem,
                self@.addr == pre.addr,
                self@.sound == pre.sound,
                self@.delay == pre.delay,
                self@.pc == pre.pc,
                self@.keys == pre.keys,
                self@.stack == pre.stack,
                self@.screen == pre.screen,
                self@.screen_dirty == pre.screen_dirty,
                self@.in_jump == pre.in_jump,
                self@.blocked == pre.blocked,
                self@.regs.len() == 16,
                forall|j: int| i <= j < 16 ==> self@.regs[j] == pre.regs[j],
                forall|j: int| 0 <= j < i ==> self@.regs[j] == pre.mem[pre.addr + j],
            decreases last + 1 - i,
        {
            let memory_address = self.address_register + i;
            if memory_address >= MEMORY_SIZE {
                proof {
                    reveal(execute_rel);
                    assert(i as int == spec_block_count(pre.addr as int, n));
                    assert(self@.regs =~= spec_block_fill_regs(pre.regs, pre.mem, pre.addr as int, n));
                    assert(self@ =~~= (MachineView {
                        regs: spec_block_fill_regs(pre.regs, pre.mem, pre.addr as int, n),
                        ..pre
                    }));
                }
                return Err(InstructionExecutionError::InvalidMemoryAccess(memory_address));
            }
            let reg = match DataRegister::try_from_u8(i as u8) {
                Ok(d) => d,
                Err(_) => unreached(),
            };
            let value = self.memory.raw_data[memory_address];
            self.data_registers.set(reg, value);
            i += 1;
        }
        proof {
            assert(i as int == n && pre.addr + n <= MEMORY_SIZE);
            assert(self@.regs =~= spec_block_fill_regs(pre.regs, pre.mem, pre.addr as int, n));
            assert(self@ =~~= (MachineView {
                regs: spec_block_fill_regs(pre.regs, pre.mem, pre.addr as int, n),
                ..pre
            }));
        }
        Ok(())
    }

    /// Clear-screen: reset every pixel to `Off`.
    fn exec_clear_screen(&mut self) -> (r: Result<(), InstructionExecutionError>)
        requires
            old(self).wf(),
        ensures
            final (self).wf(),
            execute_rel(old(self)@, final (self)@, Instruction::ClearScreen, r),
    {
        proof {
            reveal(execute_rel);
        }
        self.screen.clear();
        proof {
            assert(self@ =~~= (MachineView { screen: spec_blank_screen(), ..old(self)@ }));
        }
        Ok(())
    }

    /// Return: pop the return address into the program counter;
    /// fails on an empty call stack.
    fn exec_return_from_subroutine(&mut self) -> (r: Result<(), InstructionExecutionError>)
        requires
            old(self).wf(),
        ensures
            final (self).wf(),
            execute_rel(old(self)@, final (self)@, Instruction::ReturnFromSubroutine, r),
    {
        proof {
            reveal(execute_rel);
        }
        match self.stack.pop() {
            Some(address) => {
                self.program_counter = address;
                self.in_jump = true;
                proof {
                    assert(self@ =~~= (MachineView {
                        pc: old(self)@.stack.last(),
                        stack: old(self)@.stack.drop_last(),
                        in_jump: true,
                        ..old(self)@
                    }));
                }
                Ok(())
            },
            None => Err(InstructionExecutionError::InvalidReturn),
        }
    }

    /// Unconditional jump, suppressing the automatic post-cycle
    /// advance.
    fn exec_jump_to_address(&mut self, address: usize) -> (r: Result<(), InstructionExecutionError>)
        requires
            old(self).wf(),
        ensures
            final (self).wf(),
            execute_rel(old(self)@, final (self)@, Instruction::JumpToAddress { address }, r),
    {
        proof {
            reveal(execute_rel);
        }
        self.program_counter = address;
        self.in_jump = true;
        proof {
            assert(self@ =~~= (MachineView { pc: address, in_jump: true, ..old(self)@ }));
        }
        Ok(())
    }

    /// Call: push the address of the following instruction, then
    /// jump.
    fn exec_execute_subroutine(&mut self, address: usize) -> (r: Result<(), InstructionExecutionError>)
        requires
            old(self).wf(),
            old(self)@.pc + INSTRUCTION_SIZE <= usize::MAX,
        ensures
            final (self).wf(),
            execute_rel(old(self)@, final (self)@, Instruction::ExecuteSubroutine { address }, r),
    {
        proof {
            reveal(execute_rel);
        }
        self.stack.push(self.program_counter + INSTRUCTION_SIZE);
        self.program_counter = address;
        self.in_jump = true;
        proof {
            assert(self@ =~~= (MachineView {
                stack: old(self)@.stack.push((old(self)@.pc + INSTRUCTION_SIZE) as usize),
                pc: address,
                in_jump: true,
                ..old(self)@
            }));
        }
        Ok(())
    }

    /// Skip one instruction width if `vx` equals the immediate.
    fn exec_skip_if_vx_equals_num(&mut self, vx: DataRegister, num: u8) -> (r: Result<(), InstructionExecutionError>)
        requires
            old(self).wf(),
            old(self)@.pc + INSTRUCTION_SIZE <= usize::MAX,
        ensures
            final (self).wf(),
            execute_rel(old(self)@, final (self)@, Instruction::SkipIfVxEqualsNum { vx, num }, r),
    {
        proof {
            reveal(execute_rel);
        }
        if self.data_registers.get(vx) == num {
            self.program_counter = self.program_counter + INSTRUCTION_SIZE;
        }
        proof {
            assert(self@ =~~= (MachineView {
                pc: if old(self)@.regs[vx.idx()] == num {
                    (old(self)@.pc + INSTRUCTION_SIZE) as usize
                } else {
                    old(self)@.pc
                },
                ..old(self)@
            }));
        }
        Ok(())
    }

    /// Skip one instruction width if `vx` differs from the
    /// immediate.
    fn exec_skip_if_vx_not_equal_num(&mut self, vx: DataRegister, num: u8) -> (r: Result<(), InstructionExecutionError>)
        requires
            old(self).wf(),
            old(self)@.pc + INSTRUCTION_SIZE <= usize::MAX,
        ensures
            final (self).wf(),
            execute_rel(old(self)@, final (self)@, Instruction::SkipIfVxNotEqualNum { vx, num }, r),
    {
        proof {
            reveal(execute_rel);
        }
        if self.data_registers.get(vx) != num {
            self.program_counter = self.program_counter + INSTRUCTION_SIZE;
        }
        proof {
            assert(self@ =~~= (MachineView {
                pc: if old(self)@.regs[vx.idx()] != num {
                    (old(self)@.pc + INSTRUCTION_SIZE) as usize
                } else {
                    old(self)@.pc
                },
                ..old(self)@
            }));
        }
        Ok(())
    }

    /// Skip one instruction width if `vx` equals `vy`.
    fn exec_skip_if_vx_equals_vy(&mut self, vx: DataRegister, vy: DataRegister) -> (r: Result<(), InstructionExecutionError>)
        requires
            old(self).wf(),
            old(self)@.pc + INSTRUCTION_SIZE <= usize::MAX,
        ensures
            final (self).wf(),
            execute_rel(old(self)@, final (self)@, Instruction::SkipIfVxEqualsVy { vx, vy }, r),
    {
        proof {
            reveal(execute_rel);
        }
        if self.data_registers.get(vx) == self.data_registers.get(vy) {
            self.program_counter = self.program_counter + INSTRUCTION_SIZE;
        }
        proof {
            assert(self@ =~~= (MachineView {
                pc: if old(self)@.regs[vx.idx()] == old(self)@.regs[vy.idx()] {
                    (old(self)@.pc + INSTRUCTION_SIZE) as usize
                } else {
                    old(self)@.pc
                },
                ..old(self)@
            }));
        }
        Ok(())
    }

    /// Load the immediate into `vx`.
    fn exec_store_num_in_vx(&mut self, vx: DataRegister, num: u8) -> (r: Result<(), InstructionExecutionError>)
        requires
            old(self).wf(),
        ensures
            final (self).wf(),
            execute_rel(old(self)@, final (self)@, Instruction::StoreNumInVx { vx, num }, r),
    {
        proof {
            reveal(execute_rel);
        }
        self.data_registers.set(vx, num);
        proof {
            assert(self@ =~~= (MachineView {
                regs: old(self)@.regs.update(vx.idx(), num),
                ..old(self)@
            }));
        }
        Ok(())
    }

    /// Add the immediate into `vx`, keeping the wrapped 8-bit
    /// result; flag 1 exactly when a carry occurred.
    fn exec_add_num_to_vx(&mut self, vx: DataRegister, num: u8) -> (r: Result<(), InstructionExecutionError>)
        requires
            old(self).wf(),
        ensures
            final (self).wf(),
            execute_rel(old(self)@, final (self)@, Instruction::AddNumToVx { vx, num }, r),
    {
        proof {
            reveal(execute_rel);
        }
        let x = self.data_registers.get(vx);
        let sum: u16 = x as u16 + num as u16;
        let value: u8 = (sum % 256) as u8;
        let flag: u8 = if sum > 255 {
            1
        } else {
            0
        };
        self.data_registers.set(vx, value);
        self.data_registers.set(DataRegister::VF, flag);
        proof {
            assert(self@ =~~= (MachineView {
                regs: old(self)@.regs.update(vx.idx(), spec_wrap_add(x, num)).update(
                    DataRegister::VF.idx(),
                    spec_add_carry(x, num),
                ),
                ..old(self)@
            }));
        }
        Ok(())
    }

    /// Copy `vy` into `vx`.
    fn exec_store_vy_in_vx(&mut self, vx: DataRegister, vy: DataRegister) -> (r: Result<(), InstructionExecutionError>)
        requires
            old(self).wf(),
        ensures
            final (self).wf(),
            execute_rel(old(self)@, final (self)@, Instruction::StoreVyInVx { vx, vy }, r),
    {
        proof {
            reveal(execute_rel);
        }
        let value = self.data_registers.get(vy);
        self.data_registers.set(vx, value);
        proof {
            assert(self@ =~~= (MachineView {
                regs: old(self)@.regs.update(vx.idx(), old(self)@.regs[vy.idx()]),
                ..old(self)@
            }));
        }
        Ok(())
    }

    /// Bitwise OR of `vx` and `vy` into `vx`.
    fn exec_set_vx_to_vx_or_vy(&mut self, vx: DataRegister, vy: DataRegister) -> (r: Result<(), InstructionExecutionError>)
        requires
            old(self).wf(),
        ensures
            final (self).wf(),
            execute_rel(old(self)@, final (self)@, Instruction::SetVxToVxOrVy { vx, vy }, r),
    {
        proof {
            reveal(execute_rel);
        }
        let value = self.data_registers.get(vx) | self.data_registers.get(vy);
        self.data_registers.set(vx, value);
        proof {
            assert(self@ =~~= (MachineView {
                regs: old(self)@.regs.update(
                    vx.idx(),
                    old(self)@.regs[vx.idx()] | old(self)@.regs[vy.idx()],
                ),
                ..old(self)@
            }));
        }
        Ok(())
    }

    /// Bitwise AND of `vx` and `vy` into `vx`.
    fn exec_set_vx_to_vx_and_vy(&mut self, vx: DataRegister, vy: DataRegister) -> (r: Result<(), InstructionExecutionError>)
        requires
            old(self).wf(),
        ensures
            final (self).wf(),
            execute_rel(old(self)@, final (self)@, Instruction::SetVxToVxAndVy { vx, vy }, r),
    {
        proof {
            reveal(execute_rel);
        }
        let value = self.data_registers.get(vx) & self.data_registers.get(vy);
        self.data_registers.set(vx, value);
        proof {
            assert(self@ =~~= (MachineView {
                regs: old(self)@.regs.update(
                    vx.idx(),
                    old(self)@.regs[vx.idx()] & old(self)@.regs[vy.idx()],
                ),
                ..old(self)@
            }));
        }
        Ok(())
    }

    /// Bitwise XOR of `vx` and `vy` into `vx`.
    fn exec_set_vx_to_vx_xor_vy(&mut self, vx: DataRegister, vy: DataRegister) -> (r: Result<(), InstructionExecutionError>)
        requires
            old(self).wf(),
        ensures
            final (self).wf(),
            execute_rel(old(self)@, final (self)@, Instruction::SetVxToVxXorVy { vx, vy }, r),
    {
        proof {
            reveal(execute_rel);
        }
        let value = self.data_registers.get(vx) ^ self.data_registers.get(vy);
        self.data_registers.set(vx, value);
        proof {
            assert(self@ =~~= (MachineView {
                regs: old(self)@.regs.update(
                    vx.idx(),
                    old(self)@.regs[vx.idx()] ^ old(self)@.regs[vy.idx()],
                ),
                ..old(self)@
            }));
        }
        Ok(())
    }

    /// Add `vy` into `vx`, keeping the wrapped 8-bit result; flag 1
    /// exactly when a carry occurred.
    fn exec_add_vy_to_vx(&mut self, vx: DataRegister, vy: DataRegister) -> (r: Result<(), InstructionExecutionError>)
        requires
            old(self).wf(),
        ensures
            final (self).wf(),
            execute_rel(old(self)@, final (self)@, Instruction::AddVyToVx { vx, vy }, r),
    {
        proof {
            reveal(execute_rel);
        }
        let x = self.data_registers.get(vx);
        let y = self.data_registers.get(vy);
        let sum: u16 = x as u16 + y as u16;
        let value: u8 = (sum % 256) as u8;
        let flag: u8 = if sum > 255 {
            1
        } else {
            0
        };
        self.data_registers.set(vx, value);
        self.data_registers.set(DataRegister::VF, flag);
        proof {
            assert(self@ =~~= (MachineView {
                regs: old(self)@.regs.update(vx.idx(), spec_wrap_add(x, y)).update(
                    DataRegister::VF.idx(),
                    spec_add_carry(x, y),
                ),
                ..old(self)@
            }));
        }
        Ok(())
    }

    /// Subtract `vy` from `vx`, keeping the wrapped 8-bit result;
    /// flag 1 exactly when no borrow occurred.
    fn exec_subtract_vy_from_vx(&mut self, vx: DataRegister, vy: DataRegister) -> (r: Result<(), InstructionExecutionError>)
        requires
            old(self).wf(),
        ensures
            final (self).wf(),
            execute_rel(old(self)@, final (self)@, Instruction::SubtractVyFromVx { vx, vy }, r),
    {
        proof {
            reveal(execute_rel);
        }
        let x = self.data_registers.get(vx);
        let y = self.data_registers.get(vy);
        let value: u8 = if x >= y {
            x - y
        } else {
            ((x as u16 + 256) - y as u16) as u8
        };
        let flag: u8 = if x >= y {
            1
        } else {
            0
        };
        self.data_registers.set(vx, value);
        self.data_registers.set(DataRegister::VF, flag);
        proof {
            assert(self@ =~~= (MachineView {
                regs: old(self)@.regs.update(vx.idx(), spec_wrap_sub(x, y)).update(
                    DataRegister::VF.idx(),
                    spec_sub_no_borrow(x, y),
                ),
                ..old(self)@
            }));
        }
        Ok(())
    }

    /// Shift `vy` right one bit into `vx`; the flag takes the
    /// low bit of the source before the shift.
    fn exec_shift_vy_right_store_in_vx(&mut self, vx: DataRegister, vy: DataRegister) -> (r: Result<(), InstructionExecutionError>)
        requires
            old(self).wf(),
        ensures
            final (self).wf(),
            execute_rel(old(self)@, final (self)@, Instruction::ShiftVyRightStoreInVx { vx, vy }, r),
    {
        proof {
            reveal(execute_rel);
        }
        // Flag first; the shifted source is read after the flag
        // write, so a flag-register operand sees the new value.
        let flag = self.data_registers.get(vy) & 1;
        self.data_registers.set(DataRegister::VF, flag);
        let value = self.data_registers.get(vy) >> 1u8;
        self.data_registers.set(vx, value);
        proof {
            let regs1 = old(self)@.regs.update(
                DataRegister::VF.idx(),
                old(self)@.regs[vy.idx()] & 1,
            );
            assert(self@ =~~= (MachineView {
                regs: regs1.update(vx.idx(), regs1[vy.idx()] >> 1u8),
                ..old(self)@
            }));
        }
        Ok(())
    }

    /// Reverse subtract `vy - vx` into `vx`, with the same flag
    /// convention as the ordinary subtract.
    fn exec_set_vx_to_vy_minus_vx(&mut self, vx: DataRegister, vy: DataRegister) -> (r: Result<(), InstructionExecutionError>)
        requires
            old(self).wf(),
        ensures
            final (self).wf(),
            execute_rel(old(self)@, final (self)@, Instruction::SetVxToVyMinusVx { vx, vy }, r),
    {
        proof {
            reveal(execute_rel);
        }
        let x = self.data_registers.get(vx);
        let y = self.data_registers.get(vy);
        let value: u8 = if y >= x {
            y - x
        } else {
            ((y as u16 + 256) - x as u16) as u8
        };
        let flag: u8 = if y >= x {
            1
        } else {
            0
        };
        self.data_registers.set(vx, value);
        self.data_registers.set(DataRegister::VF, flag);
        proof {
            assert(self@ =~~= (MachineView {
                regs: old(self)@.regs.update(vx.idx(), spec_wrap_sub(y, x)).update(
                    DataRegister::VF.idx(),
                    spec_sub_no_borrow(y, x),
                ),
                ..old(self)@
            }));
        }
        Ok(())
    }

    /// Shift `vy` left one bit into `vx`; the flag takes the
    /// high bit of the source before the shift.
    fn exec_shift_vy_left_store_in_vx(&mut self, vx: DataRegister, vy: DataRegister) -> (r: Result<(), InstructionExecutionError>)
        requires
            old(self).wf(),
        ensures
            final (self).wf(),
            execute_rel(old(self)@, final (self)@, Instruction::ShiftVyLeftStoreInVx { vx, vy }, r),
    {
        proof {
            reveal(execute_rel);
        }
        // Flag first; the shifted source is read after the flag
        // write, so a flag-register operand sees the new value.
        let flag = self.data_registers.get(vy) >> 7u8;
        self.data_registers.set(DataRegister::VF, flag);
        let value = (self.data_registers.get(vy) % 128) * 2;
        self.data_registers.set(vx, value);
        proof {
            let regs1 = old(self)@.regs.update(
                DataRegister::VF.idx(),
                old(self)@.regs[vy.idx()] >> 7u8,
            );
            assert(self@ =~~= (MachineView {
                regs: regs1.update(vx.idx(), ((regs1[vy.idx()] % 128) * 2) as u8),
                ..old(self)@
            }));
        }
        Ok(())
    }

    /// Skip one instruction width if `vx` differs from `vy`.
    fn exec_skip_if_vx_not_equal_vy(&mut self, vx: DataRegister, vy: DataRegister) -> (r: Result<(), InstructionExecutionError>)
        requires
            old(self).wf(),
            old(self)@.pc + INSTRUCTION_SIZE <= usize::MAX,
        ensures
            final (self).wf(),
            execute_rel(old(self)@, final (self)@, Instruction::SkipIfVxNotEqualVy { vx, vy }, r),
    {
        proof {
            reveal(execute_rel);
        }
        if self.data_registers.get(vx) != self.data_registers.get(vy) {
            self.program_counter = self.program_counter + INSTRUCTION_SIZE;
        }
        proof {
            assert(self@ =~~= (MachineView {
                pc: if old(self)@.regs[vx.idx()] != old(self)@.regs[vy.idx()] {
                    (old(self)@.pc + INSTRUCTION_SIZE) as usize
                } else {
                    old(self)@.pc
                },
                ..old(self)@
            }));
        }
        Ok(())
    }

    /// Load the 12-bit address operand into the address register.
    fn exec_store_address_in_address_register(&mut self, address: usize) -> (r: Result<(), InstructionExecutionError>)
        requires
            old(self).wf(),
        ensures
            final (self).wf(),
            execute_rel(old(self)@, final (self)@, Instruction::StoreAddressInAddressRegister { address }, r),
    {
        proof {
            reveal(execute_rel);
        }
        self.address_register = address;
        proof {
            assert(self@ =~~= (MachineView { addr: address, ..old(self)@ }));
        }
        Ok(())
    }

    /// Indexed jump: the target is the address operand plus `V0`.
    fn exec_jump_to_address_plus_v0(&mut self, address: usize) -> (r: Result<(), InstructionExecutionError>)
        requires
            old(self).wf(),
            address + old(self)@.regs[0] <= usize::MAX,
        ensures
            final (self).wf(),
            execute_rel(old(self)@, final (self)@, Instruction::JumpToAddressPlusV0 { address }, r),
    {
        proof {
            reveal(execute_rel);
        }
        self.program_counter = address + self.data_registers.get(DataRegister::V0) as usize;
        self.in_jump = true;
        proof {
            assert(self@ =~~= (MachineView {
                pc: (address + old(self)@.regs[0]) as usize,
                in_jump: true,
                ..old(self)@
            }));
        }
        Ok(())
    }

    /// Draw a uniformly random byte, AND it with the mask, store
    /// the result in `vx`.
    fn exec_set_vx_to_random_with_mask(&mut self, vx: DataRegister, mask: u8) -> (r: Result<(), InstructionExecutionError>)
        requires
            old(self).wf(),
        ensures
            final (self).wf(),
            execute_rel(old(self)@, final (self)@, Instruction::SetVxToRandomWithMask { vx, mask }, r),
    {
        proof {
            reveal(execute_rel);
        }
        let b = random_byte();
        let value = b & mask;
        self.data_registers.set(vx, value);
        proof {
            assert(self@ =~~= (MachineView {
                regs: old(self)@.regs.update(vx.idx(), b & mask),
                ..old(self)@
            }));
        }
        Ok(())
    }

    /// Skip one instruction width if the key named by the value
    /// of `vx` is pressed; fails on a key code above 15.
    fn exec_skip_if_key_in_vx_pressed(&mut self, vx: DataRegister) -> (r: Result<(), InstructionExecutionError>)
        requires
            old(self).wf(),
            old(self)@.pc + INSTRUCTION_SIZE <= usize::MAX,
        ensures
            final (self).wf(),
            execute_rel(old(self)@, final (self)@, Instruction::SkipIfKeyInVxPressed { vx }, r),
    {
        proof {
            reveal(execute_rel);
        }
        let code = self.data_registers.get(vx);
        match Key::try_from_u8(code) {
            Ok(key) => {
                match self.keyboard.get_key_state(key) {
                    KeyState::Pressed => {
                        self.program_counter = self.program_counter + INSTRUCTION_SIZE;
                    },
                    KeyState::Released => {},
                }
                proof {
                    assert(self@ =~~= (MachineView {
                        pc: if old(self)@.keys[code as int] is Pressed {
                            (old(self)@.pc + INSTRUCTION_SIZE) as usize
                        } else {
                            old(self)@.pc
                        },
                        ..old(self)@
                    }));
                }
                Ok(())
            },
            Err(e) => Err(InstructionExecutionError::InvalidKey(e)),
        }
    }

    /// Skip one instruction width if the key named by the value
    /// of `vx` is released; fails on a key code above 15.
    fn exec_skip_if_key_in_vx_not_pressed(&mut self, vx: DataRegister) -> (r: Result<(), InstructionExecutionError>)
        requires
            old(self).wf(),
            old(self)@.pc + INSTRUCTION_SIZE <= usize::MAX,
        ensures
            final (self).wf(),
            execute_rel(old(self)@, final (self)@, Instruction::SkipIfKeyInVxNotPressed { vx }, r),
    {
        proof {
            reveal(execute_rel);
        }
        let code = self.data_registers.get(vx);
        match Key::try_from_u8(code) {
            Ok(key) => {
                match self.keyboard.get_key_state(key) {
                    KeyState::Released => {
                        self.program_counter = self.program_counter + INSTRUCTION_SIZE;
                    },
                    KeyState::Pressed => {},
                }
                proof {
                    assert(self@ =~~= (MachineView {
                        pc: if old(self)@.keys[code as int] is Released {
                            (old(self)@.pc + INSTRUCTION_SIZE) as usize
                        } else {
                            old(self)@.pc
                        },
                        ..old(self)@
                    }));
                }
                Ok(())
            },
            Err(e) => Err(InstructionExecutionError::InvalidKey(e)),
        }
    }

    /// Copy the delay timer into `vx`.
    fn exec_store_delay_timer_in_vx(&mut self, vx: DataRegister) -> (r: Result<(), InstructionExecutionError>)
        requires
            old(self).wf(),
        ensures
            final (self).wf(),
            execute_rel(old(self)@, final (self)@, Instruction::StoreDelayTimerInVx { vx }, r),
    {
        proof {
            reveal(execute_rel);
        }
        let value = self.delay_timer;
        self.data_registers.set(vx, value);
        proof {
            assert(self@ =~~= (MachineView {
                regs: old(self)@.regs.update(vx.idx(), old(self)@.delay),
                ..old(self)@
            }));
        }
        Ok(())
    }

    /// Suspend the machine until a key release arrives,
    /// remembering `vx` as the register that will receive the key code.
    fn exec_wait_for_keypress_store_in_vx(&mut self, vx: DataRegister) -> (r: Result<(), InstructionExecutionError>)
        requires
            old(self).wf(),
        ensures
            final (self).wf(),
            execute_rel(old(self)@, final (self)@, Instruction::WaitForKeypressStoreInVx { vx }, r),
    {
        proof {
            reveal(execute_rel);
        }
        self.blocked = Blocked::WaitingOnKeyUp(vx);
        proof {
            assert(self@ =~~= (MachineView {
                blocked: Blocked::WaitingOnKeyUp(vx),
                ..old(self)@
            }));
        }
        Ok(())
    }

    /// Set the delay timer from `vx`.
    fn exec_set_delay_timer_to_vx(&mut self, vx: DataRegister) -> (r: Result<(), InstructionExecutionError>)
        requires
            old(self).wf(),
        ensures
            final (self).wf(),
            execute_rel(old(self)@, final (self)@, Instruction::SetDelayTimerToVx { vx }, r),
    {
        proof {
            reveal(execute_rel);
        }
        self.delay_timer = self.data_registers.get(vx);
        proof {
            assert(self@ =~~= (MachineView {
                delay: old(self)@.regs[vx.idx()],
                ..old(self)@
            }));
        }
        Ok(())
    }

    /// Set the sound timer from `vx`.
    fn exec_set_sound_timer_to_vx(&mut self, vx: DataRegister) -> (r: Result<(), InstructionExecutionError>)
        requires
            old(self).wf(),
        ensures
            final (self).wf(),
            execute_rel(old(self)@, final (self)@, Instruction::SetSoundTimerToVx { vx }, r),
    {
        proof {
            reveal(execute_rel);
        }
        self.sound_timer = self.data_registers.get(vx);
        proof {
            assert(self@ =~~= (MachineView {
                sound: old(self)@.regs[vx.idx()],
                ..old(self)@
            }));
        }
        Ok(())
    }

    /// Add `vx` into the address register; no flag behavior.
    fn exec_add_vx_to_address_register(&mut self, vx: DataRegister) -> (r: Result<(), InstructionExecutionError>)
        requires
            old(self).wf(),
            old(self)@.addr + old(self)@.regs[vx.idx()] <= usize::MAX,
        ensures
            final (self).wf(),
            execute_rel(old(self)@, final (self)@, Instruction::AddVxToAddressRegister { vx }, r),
    {
        proof {
            reveal(execute_rel);
        }
        self.address_register = self.address_register + self.data_registers.get(
            vx,
        ) as usize;
        proof {
            assert(self@ =~~= (MachineView {
                addr: (old(self)@.addr + old(self)@.regs[vx.idx()]) as usize,
                ..old(self)@
            }));
        }
        Ok(())
    }

    /// Point the address register at the built-in font glyph for
    /// the value of `vx`.
    fn exec_set_address_register_to_sprite_address_of_sprite_in_vx(&mut self, vx: DataRegister) -> (r: Result<(), InstructionExecutionError>)
        requires
            old(self).wf(),
        ensures
            final (self).wf(),
            execute_rel(old(self)@, final (self)@, Instruction::SetAddressRegisterToSpriteAddressOfSpriteInVx { vx }, r),
    {
        proof {
            reveal(execute_rel);
        }
        self.address_register = FONT_SPRITE_MEMORY_LOCATION + (self.data_registers.get(vx)
            as usize) * FONT_SPRITE_SIZE;
        proof {
            assert(self@ =~~= (MachineView {
                addr: (FONT_SPRITE_MEMORY_LOCATION + (old(self)@.regs[vx.idx()] as int) * (
                FONT_SPRITE_SIZE as int)) as usize,
                ..old(self)@
            }));
        }
        Ok(())
    }

    /// Execute one control-flow or screen instruction; every other
    /// instruction is handed on to the arithmetic group.
    fn execute_control_instruction(&mut self, instruction: Instruction) -> (r: Result<
        (),
        InstructionExecutionError,
    >)
        requires
            old(self).wf(),
            instruction.inv(),
            spec_no_overflow(old(self)@, instruction),
        ensures
            final (self).wf(),
            execute_rel(old(self)@, final (self)@, instruction, r),
    {
        match instruction {
            Instruction::ExecuteMachineLanguageSubroutine { .. } => {
                // Only meaningful on the historical machines; accepted and ignored.
                proof {
                    reveal(execute_rel);
                }
                Ok(())
            },
            Instruction::ClearScreen => self.exec_clear_screen(),
            Instruction::ReturnFromSubroutine => self.exec_return_from_subroutine(),
            Instruction::JumpToAddress { address } => self.exec_jump_to_address(address),
            Instruction::ExecuteSubroutine { address } => self.exec_execute_subroutine(address),
            Instruction::SkipIfVxEqualsNum { vx, num } => self.exec_skip_if_vx_equals_num(vx, num),
            Instruction::SkipIfVxNotEqualNum { vx, num } => self.exec_skip_if_vx_not_equal_num(
                vx,
                num,
            ),
            Instruction::SkipIfVxEqualsVy { vx, vy } => self.exec_skip_if_vx_equals_vy(vx, vy),
            Instruction::SkipIfVxNotEqualVy { vx, vy } => self.exec_skip_if_vx_not_equal_vy(vx, vy),
            Instruction::StoreAddressInAddressRegister { address } => self
                .exec_store_address_in_address_register(address),
            Instruction::JumpToAddressPlusV0 { address } => self.exec_jump_to_address_plus_v0(
                address,
            ),
            _ => self.execute_register_instruction(instruction),
        }
    }

    /// Execute a register-arithmetic instruction; every other
    /// instruction is handed on to the memory/key/timer group.
    fn execute_register_instruction(&mut self, instruction: Instruction) -> (r: Result<
        (),
        InstructionExecutionError,
    >)
        requires
            old(self).wf(),
            instruction.inv(),
            spec_no_overflow(old(self)@, instruction),
            !is_control_shape(instruction),
        ensures
            final (self).wf(),
            execute_rel(old(self)@, final (self)@, instruction, r),
    {
        match instruction {
            Instruction::StoreNumInVx { vx, num } => self.exec_store_num_in_vx(vx, num),
            Instruction::AddNumToVx { vx, num } => self.exec_add_num_to_vx(vx, num),
            Instruction::StoreVyInVx { vx, vy } => self.exec_store_vy_in_vx(vx, vy),
            Instruction::SetVxToVxOrVy { vx, vy } => self.exec_set_vx_to_vx_or_vy(vx, vy),
            Instruction::SetVxToVxAndVy { vx, vy } => self.exec_set_vx_to_vx_and_vy(vx, vy),
            Instruction::SetVxToVxXorVy { vx, vy } => self.exec_set_vx_to_vx_xor_vy(vx, vy),
            Instruction::AddVyToVx { vx, vy } => self.exec_add_vy_to_vx(vx, vy),
            Instruction::SubtractVyFromVx { vx, vy } => self.exec_subtract_vy_from_vx(vx, vy),
            Instruction::ShiftVyRightStoreInVx { vx, vy } => self.exec_shift_vy_right_store_in_vx(
                vx,
                vy,
            ),
            Instruction::SetVxToVyMinusVx { vx, vy } => self.exec_set_vx_to_vy_minus_vx(vx, vy),
            Instruction::ShiftVyLeftStoreInVx { vx, vy } => self.exec_shift_vy_left_store_in_vx(
                vx,
                vy,
            ),
            Instruction::SetVxToRandomWithMask { vx, mask } => self.exec_set_vx_to_random_with_mask(
                vx,
                mask,
            ),
            _ => self.execute_memory_instruction(instruction),
        }
    }

    /// Execute a memory, key or timer instruction. By the time dispatch
    /// reaches this group, every instruction shape is covered.
    fn execute_memory_instruction(&mut self, instruction: Instruction) -> (r: Result<
        (),
        InstructionExecutionError,
    >)
        requires
            old(self).wf(),
            instruction.inv(),
            spec_no_overflow(old(self)@, instruction),
            !is_control_shape(instruction),
            !is_register_shape(instruction),
        ensures
            final (self).wf(),
            execute_rel(old(self)@, final (self)@, instruction, r),
    {
        match instruction {
            Instruction::DrawSpriteAtVxVy { vx, vy, byte_count } => self.exec_draw_sprite(
                vx,
                vy,
                byte_count,
            ),
            Instruction::SkipIfKeyInVxPressed { vx } => self.exec_skip_if_key_in_vx_pressed(vx),
            Instruction::SkipIfKeyInVxNotPressed { vx } => self.exec_skip_if_key_in_vx_not_pressed(
                vx,
            ),
            Instruction::StoreDelayTimerInVx { vx } => self.exec_store_delay_timer_in_vx(vx),
            Instruction::WaitForKeypressStoreInVx { vx } => self.exec_wait_for_keypress_store_in_vx(
                vx,
            ),
            Instruction::SetDelayTimerToVx { vx } => self.exec_set_delay_timer_to_vx(vx),
            Instruction::SetSoundTimerToVx { vx } => self.exec_set_sound_timer_to_vx(vx),
            Instruction::AddVxToAddressRegister { vx } => self.exec_add_vx_to_address_register(vx),
            Instruction::SetAddressRegisterToSpriteAddressOfSpriteInVx { vx } => self
                .exec_set_address_register_to_sprite_address_of_sprite_in_vx(vx),
            Instruction::StoreBCDOfVx { vx } => self.exec_store_bcd(vx),
            Instruction::StoreRegistersInMemory { vx } => self.exec_store_registers(vx),
            Instruction::FillRegistersFromMemory { vx } => self.exec_fill_registers(vx),
            _ => unreached(),
        }
    }

    /// Execute one decoded instruction, applying its state transition in
    /// place. The exact semantics of every instruction, including flag
    /// conventions, failure conditions and partial mutation on failure,
    /// is [`execute_rel`].
    pub fn execute_instruction(&mut self, instruction: Instruction) -> (r: Result<
        (),
        InstructionExecutionError,
    >)
        requires
            old(self).wf(),
            instruction.inv(),
            spec_no_overflow(old(self)@, instruction),
        ensures
            final (self).wf(),
            execute_rel(old(self)@, final (self)@, instruction, r),
    {
        self.execute_control_instruction(instruction)
    }
}

} // verus!
