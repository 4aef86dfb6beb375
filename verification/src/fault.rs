//! The ways in which loading or running a program fails.

use vstd::prelude::*;
use crate::instruction::Instruction;

verus! {

/// The size, in bytes, of the largest program that can be loaded.
pub const MAX_PROGRAM: usize = 0x800;

/// Why a program image was not loaded.
#[derive(Debug, Clone, Copy, PartialEq, Eq, Structural)]
pub enum LoadError {
    /// The image has `len` bytes, more than [`MAX_PROGRAM`].
    TooLarge { len: usize },
}

/// Why the machine cannot execute its next instruction. Each of these is
/// final: the program is malformed, and the machine is left as it was before
/// the step.
#[derive(Debug, Clone, Copy, PartialEq, Eq, Structural)]
pub enum Fault {
    /// The program counter `pc` leaves no room for a two-byte instruction
    /// within memory.
    Fetch { pc: u16 },
    /// The word fetched matches no defined instruction.
    Decode { inst: Instruction },
    /// A call with the stack at capacity.
    StackOverflow,
    /// A return with the stack empty.
    StackUnderflow,
    /// A key instruction with a register that holds no key number: `key` is
    /// above `0xF`.
    Key { key: u8 },
}

} // verus!
