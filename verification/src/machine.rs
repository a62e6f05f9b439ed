//! The top-level machine: owns memory, registers, screen, keyboard,
//! timers, the call stack and the two machine-wide flags (jump
//! suppression and the blocking state), and exposes the host-facing
//! surface for loading programs and forwarding key events.

use vstd::prelude::*;

use crate::constants::{
    DEFAULT_PROGRAM_ADDRESS, FONT_SPRITE_MEMORY_LOCATION, MEMORY_SIZE, STACK_SIZE,
    UNPROTECTED_MEMORY_START, spec_font_sprites, font_sprites,
};
use crate::data_register::{DataRegister, DataRegisters};
use crate::keyboard::{Key, KeyState, Keyboard};
use crate::memory::{Memory, WriteError, spec_write};
use crate::pixel::Pixel;
use crate::screen::{Screen, spec_blank_screen, screen_grid_wf};

verus! {

/// The machine-wide blocking state: running freely, or suspended until
/// a key release arrives, remembering which register receives the
/// released key's code.
#[derive(Debug, Clone, Copy, PartialEq, Eq, Structural)]
pub enum Blocked {
    No,
    WaitingOnKeyUp(DataRegister),
}

/// The mathematical state of a machine: every component as a plain
/// value. All contracts of this crate are stated over this view.
#[verifier::ext_equal]
pub struct MachineView {
    pub mem: Seq<u8>,
    pub regs: Seq<u8>,
    pub addr: usize,
    pub sound: u8,
    pub delay: u8,
    pub pc: usize,
    pub keys: Seq<KeyState>,
    pub stack: Seq<usize>,
    pub screen: Seq<Seq<Pixel>>,
    pub screen_dirty: bool,
    pub in_jump: bool,
    pub blocked: Blocked,
}

impl MachineView {
    /// Every component has its fixed dimensions.
    pub open spec fn wf(self) -> bool {
        &&& self.mem.len() == MEMORY_SIZE
        &&& self.regs.len() == 16
        &&& self.keys.len() == 16
        &&& screen_grid_wf(self.screen)
    }
}

/// The state a machine reset leaves behind: everything at its initial
/// value. Reset touches neither the key table nor the screen dirty
/// flag, so both are parameters.
pub open spec fn spec_reset_view(keys: Seq<KeyState>, screen_dirty: bool) -> MachineView {
    MachineView {
        mem: Seq::new(MEMORY_SIZE as nat, |i: int| 0u8),
        regs: Seq::new(16, |i: int| 0u8),
        addr: 0,
        sound: 0,
        delay: 0,
        pc: DEFAULT_PROGRAM_ADDRESS,
        keys: keys,
        stack: Seq::empty(),
        screen: spec_blank_screen(),
        screen_dirty: screen_dirty,
        in_jump: false,
        blocked: Blocked::No,
    }
}

/// All-zero memory with the font glyphs installed at the bottom of the
/// protected region.
pub open spec fn spec_font_memory() -> Seq<u8> {
    spec_write(
        Seq::new(MEMORY_SIZE as nat, |i: int| 0u8),
        FONT_SPRITE_MEMORY_LOCATION as int,
        spec_font_sprites(),
    )
}

/// The whole interpreter.
pub struct Chip8 {
    pub memory: Memory,
    pub data_registers: DataRegisters,
    pub address_register: usize,
    pub sound_timer: u8,
    pub delay_timer: u8,
    pub program_counter: usize,
    pub keyboard: Keyboard,
    pub stack: Vec<usize>,
    pub screen: Screen,
    pub in_jump: bool,
    pub blocked: Blocked,
}

impl View for Chip8 {
    type V = MachineView;

    open spec fn view(&self) -> MachineView {
        MachineView {
            mem: self.memory.raw_data@,
            regs: self.data_registers@,
            addr: self.address_register,
            sound: self.sound_timer,
            delay: self.delay_timer,
            pc: self.program_counter,
            keys: self.keyboard@,
            stack: self.stack@,
            screen: self.screen@,
            screen_dirty: self.screen.content_updated,
            in_jump: self.in_jump,
            blocked: self.blocked,
        }
    }
}

impl Chip8 {
    /// Every component has its fixed dimensions.
    pub open spec fn wf(&self) -> bool {
        self@.wf()
    }

    /// A fresh machine in its reset state, with every key released.
    pub fn new() -> (r: Chip8)
        ensures
            r.wf(),
            r@ == spec_reset_view(Seq::new(16, |i: int| KeyState::Released), false),
    {
        let r = Chip8 {
            memory: Memory::new(),
            data_registers: DataRegisters::new(),
            address_register: 0,
            sound_timer: 0,
            delay_timer: 0,
            program_counter: DEFAULT_PROGRAM_ADDRESS,
            keyboard: Keyboard::new(),
            stack: Vec::with_capacity(STACK_SIZE),
            screen: Screen::new(),
            in_jump: false,
            blocked: Blocked::No,
        };
        proof {
            assert(r@ =~~= spec_reset_view(Seq::new(16, |i: int| KeyState::Released), false));
        }
        r
    }

    /// Return every component to its initial value, independent of the
    /// machine's prior history. The key table and the screen dirty flag
    /// are left as they are.
    pub fn reset(&mut self)
        requires
            old(self).wf(),
        ensures
            final (self).wf(),
            final (self)@ == spec_reset_view(old(self)@.keys, old(self)@.screen_dirty),
    {
        self.data_registers.reset();
        self.address_register = 0;
        self.in_jump = false;
        self.delay_timer = 0;
        self.sound_timer = 0;
        self.stack.clear();
        self.program_counter = DEFAULT_PROGRAM_ADDRESS;
        self.memory.clear();
        self.screen.clear();
        self.blocked = Blocked::No;
        proof {
            assert(self@ =~~= spec_reset_view(old(self)@.keys, old(self)@.screen_dirty));
        }
    }

    /// Forward a key press from the host.
    pub fn key_down(&mut self, key: Key)
        requires
            old(self).wf(),
        ensures
            final (self).wf(),
            final (self)@ == (MachineView {
                keys: old(self)@.keys.update(key.idx(), KeyState::Pressed),
                ..old(self)@
            }),
    {
        self.keyboard.key_down(key);
        proof {
            assert(self@ =~~= (MachineView {
                keys: old(self)@.keys.update(key.idx(), KeyState::Pressed),
                ..old(self)@
            }));
        }
    }

    /// Resolve a pending wait-for-key: if the machine is blocked, the
    /// released key's code lands in the remembered register and the
    /// machine resumes; otherwise this does nothing.
    pub fn handle_key_up_interrupt(&mut self, key: Key)
        requires
            old(self).wf(),
        ensures
            final (self).wf(),
            (match old(self)@.blocked {
                Blocked::WaitingOnKeyUp(vx) => final (self)@ == (MachineView {
                    regs: old(self)@.regs.update(vx.idx(), key.idx() as u8),
                    blocked: Blocked::No,
                    ..old(self)@
                }),
                Blocked::No => final (self)@ == old(self)@,
            }),
    {
        match self.blocked {
            Blocked::WaitingOnKeyUp(vx) => {
                self.data_registers.set(vx, key.as_u8());
                self.blocked = Blocked::No;
                proof {
                    assert(self@ =~~= (MachineView {
                        regs: old(self)@.regs.update(vx.idx(), key.idx() as u8),
                        blocked: Blocked::No,
                        ..old(self)@
                    }));
                }
            },
            Blocked::No => {
                proof {
                    assert(self@ =~~= old(self)@);
                }
            },
        }
    }

    /// Forward a key release from the host. Updates the key table and
    /// additionally resolves a pending wait-for-key: this is the only
    /// way a blocked machine resumes.
    pub fn key_up(&mut self, key: Key)
        requires
            old(self).wf(),
        ensures
            final (self).wf(),
            (match old(self)@.blocked {
                Blocked::WaitingOnKeyUp(vx) => final (self)@ == (MachineView {
                    keys: old(self)@.keys.update(key.idx(), KeyState::Released),
                    regs: old(self)@.regs.update(vx.idx(), key.idx() as u8),
                    blocked: Blocked::No,
                    ..old(self)@
                }),
                Blocked::No => final (self)@ == (MachineView {
                    keys: old(self)@.keys.update(key.idx(), KeyState::Released),
                    ..old(self)@
                }),
            }),
    {
        self.keyboard.key_up(key);
        self.handle_key_up_interrupt(key);
        proof {
            match old(self)@.blocked {
                Blocked::WaitingOnKeyUp(vx) => {
                    assert(self@ =~~= (MachineView {
                        keys: old(self)@.keys.update(key.idx(), KeyState::Released),
                        regs: old(self)@.regs.update(vx.idx(), key.idx() as u8),
                        blocked: Blocked::No,
                        ..old(self)@
                    }));
                },
                Blocked::No => {
                    assert(self@ =~~= (MachineView {
                        keys: old(self)@.keys.update(key.idx(), KeyState::Released),
                        ..old(self)@
                    }));
                },
            }
        }
    }

    /// Install the built-in font glyphs into the protected region.
    fn load_font_sprites(&mut self)
        requires
            old(self).wf(),
        ensures
            final (self).wf(),
            final (self)@ == (MachineView {
                mem: spec_write(
                    old(self)@.mem,
                    FONT_SPRITE_MEMORY_LOCATION as int,
                    spec_font_sprites(),
                ),
                ..old(self)@
            }),
    {
        let font = font_sprites();
        let r = self.memory.write_unrestricted(font.as_slice(), FONT_SPRITE_MEMORY_LOCATION);
        proof {
            assert(r is Ok);
            assert(self@ =~~= (MachineView {
                mem: spec_write(
                    old(self)@.mem,
                    FONT_SPRITE_MEMORY_LOCATION as int,
                    spec_font_sprites(),
                ),
                ..old(self)@
            }));
        }
    }

    /// Reset the machine, install the font, then write `program` at
    /// `address` through the restricted path and point the program
    /// counter there. On failure the machine is left in its reset state
    /// with the font installed and the program counter at the default
    /// entry point.
    pub fn load_program_to_address(&mut self, program: &[u8], address: usize) -> (r: Result<
        (),
        WriteError,
    >)
        requires
            old(self).wf(),
            address + program@.len() <= usize::MAX,
        ensures
            final (self).wf(),
            address >= UNPROTECTED_MEMORY_START && address + program@.len() <= MEMORY_SIZE ==> r
                is Ok && final (self)@ == (MachineView {
                mem: spec_write(spec_font_memory(), address as int, program@),
                pc: address,
                ..spec_reset_view(old(self)@.keys, old(self)@.screen_dirty)
            }),
            address < UNPROTECTED_MEMORY_START ==> r == Err::<(), WriteError>(
                WriteError::InProtectedMemoryArea(address, (address + program@.len()) as usize),
            ) && final (self)@ == (MachineView {
                mem: spec_font_memory(),
                ..spec_reset_view(old(self)@.keys, old(self)@.screen_dirty)
            }),
            address >= UNPROTECTED_MEMORY_START && address + program@.len() > MEMORY_SIZE ==> r
                == Err::<(), WriteError>(
                WriteError::OutOfRange(address, (address + program@.len()) as usize),
            ) && final (self)@ == (MachineView {
                mem: spec_font_memory(),
                ..spec_reset_view(old(self)@.keys, old(self)@.screen_dirty)
            }),
    {
        self.reset();
        self.load_font_sprites();
        match self.memory.write_restricted(program, address) {
            Ok(()) => {
                self.program_counter = address;
                proof {
                    assert(self@ =~~= (MachineView {
                        mem: spec_write(spec_font_memory(), address as int, program@),
                        pc: address,
                        ..spec_reset_view(old(self)@.keys, old(self)@.screen_dirty)
                    }));
                }
                Ok(())
            },
            Err(e) => {
                proof {
                    assert(self@ =~~= (MachineView {
                        mem: spec_font_memory(),
                        ..spec_reset_view(old(self)@.keys, old(self)@.screen_dirty)
                    }));
                }
                Err(e)
            },
        }
    }

    /// Load `program` at the default entry point.
    pub fn load_program(&mut self, program: &[u8]) -> (r: Result<(), WriteError>)
        requires
            old(self).wf(),
            DEFAULT_PROGRAM_ADDRESS + program@.len() <= usize::MAX,
        ensures
            final (self).wf(),
            DEFAULT_PROGRAM_ADDRESS + program@.len() <= MEMORY_SIZE ==> r is Ok && final (self)@
                == (MachineView {
                mem: spec_write(spec_font_memory(), DEFAULT_PROGRAM_ADDRESS as int, program@),
                pc: DEFAULT_PROGRAM_ADDRESS,
                ..spec_reset_view(old(self)@.keys, old(self)@.screen_dirty)
            }),
            DEFAULT_PROGRAM_ADDRESS + program@.len() > MEMORY_SIZE ==> r == Err::<(), WriteError>(
                WriteError::OutOfRange(
                    DEFAULT_PROGRAM_ADDRESS,
                    (DEFAULT_PROGRAM_ADDRESS + program@.len()) as usize,
                ),
            ) && final (self)@ == (MachineView {
                mem: spec_font_memory(),
                ..spec_reset_view(old(self)@.keys, old(self)@.screen_dirty)
            }),
    {
        self.load_program_to_address(program, DEFAULT_PROGRAM_ADDRESS)
    }

    /// Whether the machine is suspended waiting for a key release.
    pub fn is_blocked(&self) -> (r: bool)
        ensures
            r == !(self@.blocked is No),
    {
        match self.blocked {
            Blocked::No => false,
            Blocked::WaitingOnKeyUp(_) => true,
        }
    }
}

} // verus!
