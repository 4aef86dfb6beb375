//! The processor state: registers, address register, program counter and
//! the two timers.

use vstd::prelude::*;
use crate::registers::Registers;
use crate::timer::Timer;

verus! {

/// The address at which programs are loaded and at which execution starts.
pub const ENTRY: u16 = 0x200;

/// The nominal rate of execution, in instructions per second.
pub const FREQ: u32 = 400;

/// The registers of the machine.
#[derive(Debug, Clone, Copy, PartialEq, Eq)]
pub struct CPU {
    /// The general-purpose registers `V0`..`VF`.
    pub v: Registers,
    /// The address register `I`. Those who address memory with it use its
    /// low twelve bits.
    pub i: u16,
    /// The program counter.
    pub pc: u16,
    /// The delay timer.
    pub dt: Timer,
    /// The sound timer.
    pub st: Timer,
}

impl CPU {
    /// The nominal rate of execution, in instructions per second.
    pub const FREQ: u32 = FREQ;

    /// The state at power-on: registers, `I` and timers zero, the program
    /// counter at the entry address.
    pub fn new() -> (out: CPU)
        ensures
            out.v@ == Seq::new(16, |k: int| 0u8),
            out.i == 0,
            out.pc == ENTRY,
            out.dt.count == 0,
            out.st.count == 0,
    {
        CPU { v: Registers::new(), i: 0, pc: ENTRY, dt: Timer::new(), st: Timer::new() }
    }
}

impl Default for CPU {
    /// The state at power-on.
    fn default() -> (out: CPU)
        ensures
            out.v@ == Seq::new(16, |k: int| 0u8),
            out.i == 0,
            out.pc == ENTRY,
            out.dt.count == 0,
            out.st.count == 0,
    {
        CPU::new()
    }
}

} // verus!
