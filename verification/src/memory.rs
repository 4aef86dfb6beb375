//! The 4 KiB address space and the font stored in its low region.

use vstd::prelude::*;

verus! {

/// The number of addressable bytes.
pub const MEMORY_SIZE: usize = 0x1000;

/// The address of the first byte of the font.
pub const FONT_BASE: u16 = 0x000;

/// The number of bytes of one glyph: five rows of eight pixels.
pub const GLYPH_SIZE: u16 = 5;

/// The number of bytes of the whole font: sixteen glyphs.
pub const FONT_SIZE: usize = 80;

/// The glyphs of the hexadecimal digits `0`..`F`, five bytes each.
pub const FONT: [u8; 80] = [
    0xF0, 0x90, 0x90, 0x90, 0xF0,
    0x20, 0x60, 0x20, 0x20, 0x70,
    0xF0, 0x10, 0xF0, 0x80, 0xF0,
    0xF0, 0x10, 0xF0, 0x10, 0xF0,
    0x90, 0x90, 0xF0, 0x10, 0x10,
    0xF0, 0x80, 0xF0, 0x10, 0xF0,
    0xF0, 0x80, 0xF0, 0x90, 0xF0,
    0xF0, 0x10, 0x20, 0x40, 0x40,
    0xF0, 0x90, 0xF0, 0x90, 0xF0,
    0xF0, 0x90, 0xF0, 0x10, 0xF0,
    0xF0, 0x90, 0xF0, 0x90, 0x90,
    0xE0, 0x90, 0xE0, 0x90, 0xE0,
    0xF0, 0x80, 0x80, 0x80, 0xF0,
    0xE0, 0x90, 0x90, 0x90, 0xE0,
    0xF0, 0x80, 0xF0, 0x80, 0xF0,
    0xF0, 0x80, 0xF0, 0x80, 0x80,
];

/// The address space: 4096 bytes.
#[derive(Debug, Clone, Copy, PartialEq, Eq)]
pub struct Memory(pub [u8; 0x1000]);

impl View for Memory {
    type V = Seq<u8>;

    /// The bytes in order of their addresses.
    open spec fn view(&self) -> Seq<u8> {
        self.0@
    }
}

impl Memory {
    /// An address reduced to the twelve bits that address memory.
    pub open spec fn wrap(a: int) -> int {
        a % 0x1000
    }

    /// The contents at power-on: the font at its base address, zero elsewhere.
    pub open spec fn initial() -> Seq<u8> {
        Seq::new(
            0x1000,
            |a: int|
                if FONT_BASE as int <= a < FONT_BASE as int + FONT_SIZE as int {
                    FONT@[a - FONT_BASE as int]
                } else {
                    0u8
                },
        )
    }

    /// The address of the glyph of the digit `d`.
    pub open spec fn glyph_addr(d: u8) -> int {
        FONT_BASE as int + GLYPH_SIZE as int * d as int
    }

    /// The memory at power-on: the font at its base address, zero elsewhere.
    pub fn new() -> (out: Memory)
        ensures
            out@ == Memory::initial(),
    {
        let mut me = Memory([0u8; 0x1000]);
        let mut k: usize = 0;
        while k < FONT_SIZE
            invariant
                k <= FONT_SIZE,
                forall|a: int|
                    0 <= a < 0x1000 ==> me@[a] == (if FONT_BASE as int <= a < FONT_BASE as int + k
                        as int {
                        FONT@[a - FONT_BASE as int]
                    } else {
                        0u8
                    }),
            decreases FONT_SIZE - k,
        {
            let ghost before = me@;
            me.0[FONT_BASE as usize + k] = FONT[k];
            assert(me@ == before.update(FONT_BASE as int + k as int, FONT@[k as int]));
            k += 1;
        }
        assert(me@ =~= Memory::initial());
        me
    }

    /// The byte at `addr`.
    pub fn get(&self, addr: u16) -> (out: u8)
        requires
            addr < 0x1000,
        ensures
            out == self@[addr as int],
    {
        self.0[addr as usize]
    }

    /// Stores `val` at `addr` and leaves every other byte as it is.
    pub fn set(&mut self, addr: u16, val: u8)
        requires
            addr < 0x1000,
        ensures
            final(self)@ == old(self)@.update(addr as int, val),
    {
        self.0[addr as usize] = val;
    }

    /// The address `offset` bytes after `base`, reduced to twelve bits: what
    /// an instruction that addresses memory through `I` reads or writes.
    pub fn locate(base: u16, offset: u8) -> (addr: u16)
        ensures
            addr as int == Memory::wrap(base as int + offset as int),
            addr < 0x1000,
    {
        ((base as u32 + offset as u32) % 0x1000) as u16
    }

    /// The address of the first of the five bytes of the glyph of `digit`.
    pub fn digit(digit: u8) -> (addr: u16)
        ensures
            addr as int == Memory::glyph_addr(digit),
    {
        FONT_BASE + (digit as u16) * GLYPH_SIZE
    }

    /// At power-on the five bytes from the glyph address of a hexadecimal
    /// digit on are the rows of that digit's glyph.
    pub proof fn lemma_glyph_rows(d: u8, row: int)
        requires
            d < 16,
            0 <= row < GLYPH_SIZE,
        ensures
            0 <= Memory::glyph_addr(d) + row < 0x1000,
            Memory::initial()[Memory::glyph_addr(d) + row] == FONT@[GLYPH_SIZE as int * d as int
                + row],
    {
    }
}

impl Default for Memory {
    /// The memory at power-on.
    fn default() -> (out: Memory)
        ensures
            out@ == Memory::initial(),
    {
        Memory::new()
    }
}

} // verus!
