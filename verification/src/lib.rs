//! A verified interpreter for the classic CHIP-8 virtual machine: a
//! 16-bit-opcode, 4KB-addressable bytecode machine with 16 general-purpose
//! registers, a call stack, a monochrome XOR-composited framebuffer, a
//! 16-key input device and two countdown timers.
//!
//! The host supplies raw program bytes, drives [`Chip8::cycle`] and
//! [`Chip8::update_timers`], forwards key events and renders the
//! framebuffer; everything in between — decoding, per-instruction
//! semantics, the protected memory model and the blocking state machine —
//! is specified and verified here.

pub mod constants;
pub mod cpu;
pub mod data_register;
pub mod draw;
pub mod execute;
pub mod instruction;
pub mod keyboard;
pub mod laws;
pub mod machine;
pub mod memory;
pub mod parser;
pub mod pixel;
pub mod screen;
pub mod sprite;

pub use cpu::CycleError;
pub use data_register::{DataRegister, DataRegisters};
pub use execute::InstructionExecutionError;
pub use instruction::Instruction;
pub use keyboard::{Key, KeyState, Keyboard};
pub use machine::{Blocked, Chip8, MachineView};
pub use memory::{Memory, ReadInstructionError, WriteError};
pub use parser::InstructionParsingError;
pub use pixel::Pixel;
pub use screen::{Screen, XorPixelErased};
pub use sprite::{PixelView, SpriteView};
