//! A CHIP-8 virtual machine: the interpreter engine, verified with Verus.

pub mod chip8;
pub mod clock;
pub mod color;
pub mod cpu;
pub mod display;
pub mod fault;
pub mod instruction;
pub mod keyboard;
pub mod laws;
pub mod machine;
pub mod memory;
mod random;
pub mod registers;
pub mod stack;
pub mod timer;

pub use chip8::Chip8;
pub use color::Color;
pub use cpu::CPU;
pub use display::{Display, EdgeMode};
pub use fault::{Fault, LoadError};
pub use instruction::{AluOp, Instruction, MiscOp, Opcode};
pub use keyboard::{HostKey, Keyboard};
pub use machine::Machine;
pub use memory::Memory;
pub use registers::Registers;
pub use stack::Stack;
pub use timer::Timer;
