//! The sixteen general-purpose registers `V0`..`VF`.

use vstd::prelude::*;

verus! {

/// The number of the flag register `VF`, which several instructions overwrite
/// with a carry, borrow, shifted-out bit or collision flag.
pub const FLAG: u8 = 0xF;

/// Sixteen independent byte registers, numbered `0..=0xF`.
#[derive(Debug, Clone, Copy, PartialEq, Eq)]
pub struct Registers(pub [u8; 16]);

impl View for Registers {
    type V = Seq<u8>;

    /// The register values in order of their numbers.
    open spec fn view(&self) -> Seq<u8> {
        self.0@
    }
}

impl Registers {
    /// A register file with every register zero.
    pub fn new() -> (out: Registers)
        ensures
            out@ == Seq::new(16, |k: int| 0u8),
    {
        Registers([0u8; 16])
    }

    /// The value of register `idx`.
    pub fn get(&self, idx: u8) -> (out: u8)
        requires
            idx < 16,
        ensures
            out == self@[idx as int],
    {
        self.0[idx as usize]
    }

    /// Stores `val` in register `idx` and leaves the others as they are.
    pub fn set(&mut self, idx: u8, val: u8)
        requires
            idx < 16,
        ensures
            final(self)@ == old(self)@.update(idx as int, val),
    {
        self.0[idx as usize] = val;
    }
}

impl Default for Registers {
    /// Every register starts at zero.
    fn default() -> (out: Registers)
        ensures
            out@ == Seq::new(16, |k: int| 0u8),
    {
        Registers::new()
    }
}

} // verus!
