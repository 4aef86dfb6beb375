//! Instruction words and their decoding.
//!
//! An instruction is one 16-bit big-endian word. Its fields are four nibbles,
//! numbered from the most significant, the low byte and the low twelve bits.
//! Reading a field never fails; whether a word is a defined instruction is
//! decided by [`Instruction::decode`].

use vstd::prelude::*;

verus! {

/// One 16-bit instruction word.
#[derive(Debug, Clone, Copy, PartialEq, Eq, Structural)]
pub struct Instruction(pub u16);

/// The operations of the register-to-register group `8XY_`.
#[derive(Debug, Clone, Copy, PartialEq, Eq, Structural)]
pub enum AluOp {
    /// `8XY0`: `VX = VY`.
    Move,
    /// `8XY1`: `VX = VX | VY`.
    Or,
    /// `8XY2`: `VX = VX & VY`.
    And,
    /// `8XY3`: `VX = VX ^ VY`.
    Xor,
    /// `8XY4`: `VX = VX + VY`, `VF` = carry.
    Add,
    /// `8XY5`: `VX = VX - VY`, `VF` = no borrow.
    Sub,
    /// `8XY6`: `VF` = low bit of `VY`, `VY` shifted right, `VX = VY`.
    ShiftRight,
    /// `8XY7`: `VX = VY - VX`, `VF` = no borrow.
    SubFrom,
    /// `8XYE`: `VF` = high bit of `VY`, `VY` shifted left, `VX = VY`.
    ShiftLeft,
}

/// The operations of the group `FX__`.
#[derive(Debug, Clone, Copy, PartialEq, Eq, Structural)]
pub enum MiscOp {
    /// `FX07`: `VX` = delay timer.
    ReadDelay,
    /// `FX0A`: wait for a key and store it in `VX`.
    WaitKey,
    /// `FX15`: delay timer = `VX`.
    SetDelay,
    /// `FX18`: sound timer = `VX`.
    SetSound,
    /// `FX1E`: `I = I + VX`.
    AddIndex,
    /// `FX29`: `I` = address of the glyph of the digit in `VX`.
    Glyph,
    /// `FX33`: the decimal digits of `VX` go to memory at `I`, `I+1`, `I+2`.
    Bcd,
    /// `FX55`: `V0..=VX` go to memory from `I` on.
    Store,
    /// `FX65`: `V0..=VX` are read from memory from `I` on.
    Load,
}

/// A decoded instruction.
#[derive(Debug, Clone, Copy, PartialEq, Eq, Structural)]
pub enum Opcode {
    /// `00E0`: clear the display.
    Clear,
    /// `00EE`: return from a subroutine.
    Return,
    /// `1NNN`: jump to `addr`.
    Jump { addr: u16 },
    /// `2NNN`: call the subroutine at `addr`.
    Call { addr: u16 },
    /// `3XNN`: skip the next instruction if `VX == nn`.
    SkipEq { x: u8, nn: u8 },
    /// `4XNN`: skip the next instruction if `VX != nn`.
    SkipNe { x: u8, nn: u8 },
    /// `5XY0`: skip the next instruction if `VX == VY`.
    SkipRegEq { x: u8, y: u8 },
    /// `6XNN`: `VX = nn`.
    Load { x: u8, nn: u8 },
    /// `7XNN`: `VX = VX + nn`, wrapping, no flag.
    Add { x: u8, nn: u8 },
    /// `8XY_`: a register-to-register operation.
    Alu { alu: AluOp, x: u8, y: u8 },
    /// `9XY0`: skip the next instruction if `VX != VY`.
    SkipRegNe { x: u8, y: u8 },
    /// `ANNN`: `I = addr`.
    Index { addr: u16 },
    /// `BNNN`: jump to `addr + V0`.
    JumpOffset { addr: u16 },
    /// `CXNN`: `VX` = a random byte masked with `nn`.
    Random { x: u8, nn: u8 },
    /// `DXYN`: draw the `n`-row sprite at `I` at `(VX, VY)`.
    Draw { x: u8, y: u8, n: u8 },
    /// `EX9E`: skip the next instruction if the key in `VX` is down.
    SkipKey { x: u8 },
    /// `EXA1`: skip the next instruction if the key in `VX` is up.
    SkipNoKey { x: u8 },
    /// `FX__`: a timer, key or memory operation.
    Misc { misc: MiscOp, x: u8 },
}

impl AluOp {
    /// The operation that the last nibble of an `8XY_` word selects.
    pub open spec fn of(n: int) -> Option<AluOp> {
        if n == 0x0 {
            Some(AluOp::Move)
        } else if n == 0x1 {
            Some(AluOp::Or)
        } else if n == 0x2 {
            Some(AluOp::And)
        } else if n == 0x3 {
            Some(AluOp::Xor)
        } else if n == 0x4 {
            Some(AluOp::Add)
        } else if n == 0x5 {
            Some(AluOp::Sub)
        } else if n == 0x6 {
            Some(AluOp::ShiftRight)
        } else if n == 0x7 {
            Some(AluOp::SubFrom)
        } else if n == 0xE {
            Some(AluOp::ShiftLeft)
        } else {
            None
        }
    }

    /// Selects the operation by the last nibble of an `8XY_` word.
    pub fn from_nibble(n: u8) -> (op: Option<AluOp>)
        ensures
            op == AluOp::of(n as int),
    {
        match n {
            0x0 => Some(AluOp::Move),
            0x1 => Some(AluOp::Or),
            0x2 => Some(AluOp::And),
            0x3 => Some(AluOp::Xor),
            0x4 => Some(AluOp::Add),
            0x5 => Some(AluOp::Sub),
            0x6 => Some(AluOp::ShiftRight),
            0x7 => Some(AluOp::SubFrom),
            0xE => Some(AluOp::ShiftLeft),
            _ => None,
        }
    }
}

impl MiscOp {
    /// The operation that the low byte of an `FX__` word selects.
    pub open spec fn of(nn: int) -> Option<MiscOp> {
        if nn == 0x07 {
            Some(MiscOp::ReadDelay)
        } else if nn == 0x0A {
            Some(MiscOp::WaitKey)
        } else if nn == 0x15 {
            Some(MiscOp::SetDelay)
        } else if nn == 0x18 {
            Some(MiscOp::SetSound)
        } else if nn == 0x1E {
            Some(MiscOp::AddIndex)
        } else if nn == 0x29 {
            Some(MiscOp::Glyph)
        } else if nn == 0x33 {
            Some(MiscOp::Bcd)
        } else if nn == 0x55 {
            Some(MiscOp::Store)
        } else if nn == 0x65 {
            Some(MiscOp::Load)
        } else {
            None
        }
    }

    /// Selects the operation by the low byte of an `FX__` word.
    pub fn from_byte(nn: u8) -> (op: Option<MiscOp>)
        ensures
            op == MiscOp::of(nn as int),
    {
        match nn {
            0x07 => Some(MiscOp::ReadDelay),
            0x0A => Some(MiscOp::WaitKey),
            0x15 => Some(MiscOp::SetDelay),
            0x18 => Some(MiscOp::SetSound),
            0x1E => Some(MiscOp::AddIndex),
            0x29 => Some(MiscOp::Glyph),
            0x33 => Some(MiscOp::Bcd),
            0x55 => Some(MiscOp::Store),
            0x65 => Some(MiscOp::Load),
            _ => None,
        }
    }
}

impl Opcode {
    /// Every register number is below 16, every address below 4096 and a
    /// sprite height below 16: what fits the fields of an instruction word.
    pub open spec fn wf(self) -> bool {
        match self {
            Opcode::Clear | Opcode::Return => true,
            Opcode::Jump { addr } | Opcode::Call { addr } | Opcode::Index { addr }
            | Opcode::JumpOffset { addr } => addr < 0x1000,
            Opcode::SkipEq { x, .. } | Opcode::SkipNe { x, .. } | Opcode::Load { x, .. }
            | Opcode::Add { x, .. } | Opcode::Random { x, .. } | Opcode::SkipKey { x }
            | Opcode::SkipNoKey { x } | Opcode::Misc { x, .. } => x < 16,
            Opcode::SkipRegEq { x, y } | Opcode::SkipRegNe { x, y } | Opcode::Alu { x, y, .. } => x
                < 16 && y < 16,
            Opcode::Draw { x, y, n } => x < 16 && y < 16 && n < 16,
        }
    }
}

impl Default for Instruction {
    /// The word zero.
    fn default() -> (out: Instruction)
        ensures
            out.0 == 0,
    {
        Instruction(0)
    }
}

impl Instruction {
    /// The nibble at position `idx`, counted from the most significant.
    pub open spec fn nibble(self, idx: int) -> int {
        if idx == 0 {
            self.0 as int / 0x1000
        } else if idx == 1 {
            (self.0 as int / 0x100) % 0x10
        } else if idx == 2 {
            (self.0 as int / 0x10) % 0x10
        } else {
            self.0 as int % 0x10
        }
    }

    /// The low twelve bits: the address field.
    pub open spec fn addr(self) -> int {
        self.0 as int % 0x1000
    }

    /// The low eight bits: the immediate byte.
    pub open spec fn byte(self) -> int {
        self.0 as int % 0x100
    }

    /// The second nibble, which names the register `X`.
    pub open spec fn x(self) -> u8 {
        self.nibble(1) as u8
    }

    /// The third nibble, which names the register `Y`.
    pub open spec fn y(self) -> u8 {
        self.nibble(2) as u8
    }

    /// The instruction that the word encodes, or `None` where it matches no
    /// defined pattern.
    pub open spec fn opcode(self) -> Option<Opcode> {
        let top = self.nibble(0);
        let x = self.x();
        let y = self.y();
        let n = self.nibble(3);
        let nn = self.byte() as u8;
        let addr = self.addr() as u16;
        if self.0 == 0x00E0 {
            Some(Opcode::Clear)
        } else if self.0 == 0x00EE {
            Some(Opcode::Return)
        } else if top == 0x1 {
            Some(Opcode::Jump { addr })
        } else if top == 0x2 {
            Some(Opcode::Call { addr })
        } else if top == 0x3 {
            Some(Opcode::SkipEq { x, nn })
        } else if top == 0x4 {
            Some(Opcode::SkipNe { x, nn })
        } else if top == 0x5 && n == 0 {
            Some(Opcode::SkipRegEq { x, y })
        } else if top == 0x6 {
            Some(Opcode::Load { x, nn })
        } else if top == 0x7 {
            Some(Opcode::Add { x, nn })
        } else if top == 0x8 {
            match AluOp::of(n) {
                Some(alu) => Some(Opcode::Alu { alu, x, y }),
                None => None,
            }
        } else if top == 0x9 && n == 0 {
            Some(Opcode::SkipRegNe { x, y })
        } else if top == 0xA {
            Some(Opcode::Index { addr })
        } else if top == 0xB {
            Some(Opcode::JumpOffset { addr })
        } else if top == 0xC {
            Some(Opcode::Random { x, nn })
        } else if top == 0xD {
            Some(Opcode::Draw { x, y, n: n as u8 })
        } else if top == 0xE && nn == 0x9E {
            Some(Opcode::SkipKey { x })
        } else if top == 0xE && nn == 0xA1 {
            Some(Opcode::SkipNoKey { x })
        } else if top == 0xF {
            match MiscOp::of(nn as int) {
                Some(misc) => Some(Opcode::Misc { misc, x }),
                None => None,
            }
        } else {
            None
        }
    }

    /// Whatever the word, a decoded instruction has fields within range.
    pub proof fn lemma_opcode_wf(self)
        ensures
            self.opcode() matches Some(op) ==> op.wf(),
    {
    }

    /// The word made of two consecutive bytes, the first being the high one.
    pub open spec fn spec_from_bytes(hi: u8, lo: u8) -> Instruction {
        Instruction((hi as int * 0x100 + lo as int) as u16)
    }

    /// Assembles an instruction from two consecutive bytes, big-endian.
    pub fn from_bytes(hi: u8, lo: u8) -> (inst: Instruction)
        ensures
            inst == Instruction::spec_from_bytes(hi, lo),
    {
        Instruction(hi as u16 * 0x100 + lo as u16)
    }

    /// The nibble at position `idx`, where 0 is the most significant.
    pub fn get_quater(&self, idx: u8) -> (out: u8)
        requires
            idx < 4,
        ensures
            out as int == self.nibble(idx as int),
            out < 16,
    {
        let w = self.0;
        let shift: u16 = 16 - (idx as u16 + 1) * 4;
        let out = (w >> shift) & 0xf;
        proof {
            assert((w >> 12u16) & 0xf == w / 0x1000) by (bit_vector);
            assert((w >> 8u16) & 0xf == (w / 0x100) % 0x10) by (bit_vector);
            assert((w >> 4u16) & 0xf == (w / 0x10) % 0x10) by (bit_vector);
            assert((w >> 0u16) & 0xf == w % 0x10) by (bit_vector);
        }
        out as u8
    }

    /// The low twelve bits: the address field.
    pub fn get_addr(&self) -> (out: u16)
        ensures
            out as int == self.addr(),
            out < 0x1000,
    {
        let w = self.0;
        proof {
            assert(w & 0xFFF == w % 0x1000) by (bit_vector);
        }
        w & 0xFFF
    }

    /// The low eight bits: the immediate byte.
    pub fn get_byte(&self) -> (out: u8)
        ensures
            out as int == self.byte(),
    {
        let w = self.0;
        proof {
            assert(w & 0xFF == w % 0x100) by (bit_vector);
        }
        (w & 0xFF) as u8
    }

    /// Decodes the word: the instruction it encodes, or `None` where it
    /// matches no defined pattern.
    pub fn decode(&self) -> (out: Option<Opcode>)
        ensures
            out == self.opcode(),
            out matches Some(op) ==> op.wf(),
    {
        let top = self.get_quater(0);
        let x = self.get_quater(1);
        let y = self.get_quater(2);
        let n = self.get_quater(3);
        let nn = self.get_byte();
        let addr = self.get_addr();
        if self.0 == 0x00E0 {
            return Some(Opcode::Clear);
        }
        if self.0 == 0x00EE {
            return Some(Opcode::Return);
        }
        match top {
            0x1 => Some(Opcode::Jump { addr }),
            0x2 => Some(Opcode::Call { addr }),
            0x3 => Some(Opcode::SkipEq { x, nn }),
            0x4 => Some(Opcode::SkipNe { x, nn }),
            0x5 => if n == 0 {
                Some(Opcode::SkipRegEq { x, y })
            } else {
                None
            },
            0x6 => Some(Opcode::Load { x, nn }),
            0x7 => Some(Opcode::Add { x, nn }),
            0x8 => match AluOp::from_nibble(n) {
                Some(alu) => Some(Opcode::Alu { alu, x, y }),
                None => None,
            },
            0x9 => if n == 0 {
                Some(Opcode::SkipRegNe { x, y })
            } else {
                None
            },
            0xA => Some(Opcode::Index { addr }),
            0xB => Some(Opcode::JumpOffset { addr }),
            0xC => Some(Opcode::Random { x, nn }),
            0xD => Some(Opcode::Draw { x, y, n }),
            0xE => if nn == 0x9E {
                Some(Opcode::SkipKey { x })
            } else if nn == 0xA1 {
                Some(Opcode::SkipNoKey { x })
            } else {
                None
            },
            0xF => match MiscOp::from_byte(nn) {
                Some(misc) => Some(Opcode::Misc { misc, x }),
                None => None,
            },
            _ => None,
        }
    }
}

} // verus!
