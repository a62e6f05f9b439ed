//! Cycle and timer orchestration: the two externally-driven transitions
//! of the machine's state machine. Both are no-ops while the machine is
//! blocked waiting for a key release.

use vstd::prelude::*;

use crate::constants::INSTRUCTION_SIZE;
use crate::execute::{execute_rel, spec_no_overflow, InstructionExecutionError};
use crate::machine::{Blocked, Chip8, MachineView};
use crate::memory::{spec_read_instruction, ReadInstructionError};

verus! {

/// Why a cycle failed: the fetch/decode step or the execution step.
#[derive(Debug, Clone, Copy, PartialEq, Eq, Structural)]
pub enum CycleError {
    FetchError(ReadInstructionError),
    ExecutionError(InstructionExecutionError),
}

/// What one call of [`Chip8::cycle`] does. A blocked machine does
/// nothing. Otherwise the instruction at the program counter is fetched
/// and decoded (propagating failure with the machine unchanged) and
/// executed (propagating failure with the partial mutation in place);
/// on success the program counter advances by one instruction width
/// unless the instruction requested a jump, and the jump-request flag
/// is cleared.
pub open spec fn cycle_rel(pre: MachineView, post: MachineView, r: Result<(), CycleError>) -> bool {
    if !(pre.blocked is No) {
        r is Ok && post == pre
    } else {
        match spec_read_instruction(pre.mem, pre.pc) {
            Err(e) => {
                &&& r matches Err(c) && c == CycleError::FetchError(e)
                &&& post == pre
            },
            Ok(instruction) => exists|mid: MachineView, er: Result<
                (),
                InstructionExecutionError,
            >|
                #[trigger] execute_rel(pre, mid, instruction, er) && match er {
                    Ok(()) => r is Ok && post == (MachineView {
                        pc: if mid.in_jump {
                            mid.pc
                        } else {
                            (mid.pc + INSTRUCTION_SIZE) as usize
                        },
                        in_jump: false,
                        ..mid
                    }),
                    Err(e) => {
                        &&& r matches Err(c) && c == CycleError::ExecutionError(e)
                        &&& post == mid
                    },
                },
        }
    }
}

impl Chip8 {
    /// Advance the machine by one instruction: fetch, decode, execute,
    /// and advance the program counter unless the instruction jumped.
    /// A no-op on a blocked machine; see [`cycle_rel`].
    pub fn cycle(&mut self) -> (r: Result<(), CycleError>)
        requires
            old(self).wf(),
            old(self)@.addr + 255 <= usize::MAX,
        ensures
            final (self).wf(),
            cycle_rel(old(self)@, final (self)@, r),
    {
        match self.blocked {
            Blocked::WaitingOnKeyUp(_) => {
                return Ok(());
            },
            Blocked::No => {},
        }
        let instruction = match self.memory.read_instruction(self.program_counter) {
            Ok(i) => i,
            Err(e) => {
                return Err(CycleError::FetchError(e));
            },
        };
        proof {
            reveal(execute_rel);
            assert(spec_no_overflow(self@, instruction));
        }
        let ghost pre = self@;
        match self.execute_instruction(instruction) {
            Ok(()) => {},
            Err(e) => {
                return Err(CycleError::ExecutionError(e));
            },
        }
        let ghost mid = self@;
        proof {
            reveal(execute_rel);
        }
        if !self.in_jump {
            self.program_counter = self.program_counter + INSTRUCTION_SIZE;
        }
        self.in_jump = false;
        proof {
            assert(self@ =~~= (MachineView {
                pc: if mid.in_jump {
                    mid.pc
                } else {
                    (mid.pc + INSTRUCTION_SIZE) as usize
                },
                in_jump: false,
                ..mid
            }));
        }
        Ok(())
    }

    /// Decrement both timers, each floored at zero. A no-op on a
    /// blocked machine: timers freeze while waiting for input.
    pub fn update_timers(&mut self)
        requires
            old(self).wf(),
        ensures
            final (self).wf(),
            !(old(self)@.blocked is No) ==> final (self)@ == old(self)@,
            old(self)@.blocked is No ==> final (self)@ == (MachineView {
                delay: if old(self)@.delay > 0 {
                    (old(self)@.delay - 1) as u8
                } else {
                    0u8
                },
                sound: if old(self)@.sound > 0 {
                    (old(self)@.sound - 1) as u8
                } else {
                    0u8
                },
                ..old(self)@
            }),
    {
        match self.blocked {
            Blocked::WaitingOnKeyUp(_) => {
                return ;
            },
            Blocked::No => {},
        }
        if self.delay_timer > 0 {
            self.delay_timer = self.delay_timer - 1;
        }
        if self.sound_timer > 0 {
            self.sound_timer = self.sound_timer - 1;
        }
        proof {
            assert(self@ =~~= (MachineView {
                delay: if old(self)@.delay > 0 {
                    (old(self)@.delay - 1) as u8
                } else {
                    0u8
                },
                sound: if old(self)@.sound > 0 {
                    (old(self)@.sound - 1) as u8
                } else {
                    0u8
                },
                ..old(self)@
            }));
        }
    }
}

} // verus!
