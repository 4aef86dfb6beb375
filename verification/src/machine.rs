//! The machine as a mathematical value, and what each instruction does to it.
//!
//! [`Machine`] is the view of the executable [`crate::Chip8`]. The functions
//! here define the instruction set; the executable code is proved against
//! them.

use vstd::prelude::*;
use crate::color::Color;
use crate::display::{blank, collides, drawn, grid_wf, EdgeMode, Grid};
use crate::fault::Fault;
use crate::instruction::{AluOp, Instruction, MiscOp, Opcode};
use crate::keyboard::first_down;
use crate::memory::Memory;
use crate::stack::STACK_DEPTH;
use crate::timer::decayed;

verus! {

/// The state of the machine.
pub struct Machine {
    /// The registers `V0`..`VF`.
    pub v: Seq<u8>,
    /// The address register.
    pub i: u16,
    /// The program counter.
    pub pc: u16,
    /// The delay timer.
    pub dt: u8,
    /// The sound timer.
    pub st: u8,
    /// The return addresses, the oldest first.
    pub stack: Seq<u16>,
    /// The 4096 bytes of memory.
    pub memory: Seq<u8>,
    /// The pixels of the display.
    pub screen: Grid,
    /// Whether the display changed since it was last presented.
    pub dirty: bool,
    /// What a draw does at the edges of the display.
    pub edges: EdgeMode,
}

/// The registers after the register-to-register operation `op` on `VX` and
/// `VY`. The flag register is written last by the additions and
/// subtractions, and first by the shifts, which then shift `VY` and copy it
/// to `VX`.
pub open spec fn alu(v: Seq<u8>, op: AluOp, x: int, y: int) -> Seq<u8> {
    match op {
        AluOp::Move => v.update(x, v[y]),
        AluOp::Or => v.update(x, v[x] | v[y]),
        AluOp::And => v.update(x, v[x] & v[y]),
        AluOp::Xor => v.update(x, v[x] ^ v[y]),
        AluOp::Add => v.update(x, ((v[x] + v[y]) % 256) as u8).update(
            0xF,
            if v[x] + v[y] > 255 {
                1u8
            } else {
                0u8
            },
        ),
        AluOp::Sub => v.update(x, ((v[x] - v[y]) % 256) as u8).update(
            0xF,
            if v[x] < v[y] {
                0u8
            } else {
                1u8
            },
        ),
        AluOp::ShiftRight => {
            let flagged = v.update(0xF, v[y] % 2);
            let shifted = flagged[y] / 2;
            flagged.update(y, shifted).update(x, shifted)
        },
        AluOp::SubFrom => v.update(x, ((v[y] - v[x]) % 256) as u8).update(
            0xF,
            if v[y] < v[x] {
                0u8
            } else {
                1u8
            },
        ),
        AluOp::ShiftLeft => {
            let flagged = v.update(0xF, v[y] / 128);
            let shifted = ((flagged[y] * 2) % 256) as u8;
            flagged.update(y, shifted).update(x, shifted)
        },
    }
}

/// The `n` bytes of a sprite that starts at address `i`, top row first. An
/// address past the end of memory continues at its beginning.
pub open spec fn sprite_rows(memory: Seq<u8>, i: u16, n: int) -> Seq<u8> {
    Seq::new(n as nat, |k: int| memory[Memory::wrap(i as int + k)])
}

/// The memory after the three decimal digits of `value` were stored at `i`,
/// `i + 1` and `i + 2`, the hundreds first.
pub open spec fn bcd_stored(memory: Seq<u8>, i: u16, value: u8) -> Seq<u8> {
    memory.update(Memory::wrap(i as int + 2), value % 10).update(
        Memory::wrap(i as int + 1),
        (value / 10) % 10,
    ).update(Memory::wrap(i as int), value / 100)
}

/// The memory after the registers `V0..=VX` were stored from address `i` on.
pub open spec fn regs_stored(memory: Seq<u8>, i: u16, v: Seq<u8>, x: int) -> Seq<u8> {
    Seq::new(
        memory.len(),
        |a: int|
            if Memory::wrap(a - i as int) <= x {
                v[Memory::wrap(a - i as int)]
            } else {
                memory[a]
            },
    )
}

/// The registers after `V0..=VX` were loaded from address `i` on.
pub open spec fn regs_loaded(v: Seq<u8>, memory: Seq<u8>, i: u16, x: int) -> Seq<u8> {
    Seq::new(
        v.len(),
        |k: int|
            if k <= x {
                memory[Memory::wrap(i as int + k)]
            } else {
                v[k]
            },
    )
}

impl Machine {
    /// The shape that every machine state has: sixteen registers, 4096 bytes
    /// of memory, a display of 64 by 32 pixels and a stack within capacity.
    pub open spec fn wf(self) -> bool {
        &&& self.v.len() == 16
        &&& self.memory.len() == 0x1000
        &&& self.stack.len() <= STACK_DEPTH
        &&& grid_wf(self.screen)
    }

    /// The machine at power-on with the program `game` loaded at the entry
    /// address: the font in place, everything else zero or empty.
    pub open spec fn loaded(game: Seq<u8>) -> Machine {
        Machine {
            v: Seq::new(16, |k: int| 0u8),
            i: 0,
            pc: 0x200,
            dt: 0,
            st: 0,
            stack: Seq::empty(),
            memory: Seq::new(
                0x1000,
                |a: int|
                    if 0x200 <= a < 0x200 + game.len() {
                        game[a - 0x200]
                    } else {
                        Memory::initial()[a]
                    },
            ),
            screen: blank(),
            dirty: false,
            edges: EdgeMode::Wrap,
        }
    }

    /// The instruction word at the program counter: two bytes, the high one
    /// first.
    pub open spec fn word(self) -> Instruction {
        Instruction::spec_from_bytes(self.memory[self.pc as int], self.memory[self.pc as int + 1])
    }

    /// The instruction that the next step runs, or the fault that fetching
    /// or decoding it raises.
    pub open spec fn next_op(self) -> Result<Opcode, Fault> {
        if self.pc > 0xFFE {
            Err(Fault::Fetch { pc: self.pc })
        } else {
            match self.word().opcode() {
                Some(op) => Ok(op),
                None => Err(Fault::Decode { inst: self.word() }),
            }
        }
    }

    /// The machine with the program counter moved past one more instruction
    /// if `cond` holds.
    pub open spec fn skip_if(self, cond: bool) -> Machine {
        if cond {
            Machine { pc: (self.pc + 2) as u16, ..self }
        } else {
            self
        }
    }

    /// The machine after the sprite of `n` rows at `I` was drawn at
    /// `(x, y)`: the pixels under set bits are toggled, and `VF` is 1 if that
    /// unset any pixel and 0 if not.
    pub open spec fn draw(self, x: u8, y: u8, n: int) -> Machine {
        let rows = sprite_rows(self.memory, self.i, n);
        Machine {
            v: self.v.update(
                0xF,
                if collides(self.screen, rows, x, y, self.edges) {
                    1u8
                } else {
                    0u8
                },
            ),
            screen: drawn(self.screen, rows, x, y, self.edges),
            dirty: true,
            ..self
        }
    }

    /// The machine after the operation `op` of the group `FX__` on register
    /// `x`, with the keypad in the state `keys`. Waiting for a key with none
    /// down moves the program counter back onto the instruction, so that the
    /// next step runs it again.
    pub open spec fn misc(self, op: MiscOp, x: int, keys: Seq<bool>) -> Machine {
        match op {
            MiscOp::ReadDelay => Machine { v: self.v.update(x, self.dt), ..self },
            MiscOp::WaitKey => match first_down(keys, 0) {
                Some(k) => Machine { v: self.v.update(x, k), ..self },
                None => Machine { pc: ((self.pc - 2) % 0x10000) as u16, ..self },
            },
            MiscOp::SetDelay => Machine { dt: self.v[x], ..self },
            MiscOp::SetSound => Machine { st: self.v[x], ..self },
            MiscOp::AddIndex => Machine { i: ((self.i + self.v[x]) % 0x10000) as u16, ..self },
            MiscOp::Glyph => Machine { i: Memory::glyph_addr(self.v[x]) as u16, ..self },
            MiscOp::Bcd => Machine { memory: bcd_stored(self.memory, self.i, self.v[x]), ..self },
            MiscOp::Store => Machine {
                memory: regs_stored(self.memory, self.i, self.v, x),
                ..self
            },
            MiscOp::Load => Machine { v: regs_loaded(self.v, self.memory, self.i, x), ..self },
        }
    }

    /// The machine after the instruction `op`, or the fault that `op`
    /// raises. The program counter of `self` already points past `op`; `keys`
    /// is the state of the keypad and `rnd` the random byte that a `CXNN`
    /// uses.
    pub open spec fn apply(self, op: Opcode, keys: Seq<bool>, rnd: u8) -> Result<Machine, Fault> {
        match op {
            Opcode::Clear => Ok(Machine { screen: blank(), dirty: true, ..self }),
            Opcode::Return => if self.stack.len() == 0 {
                Err(Fault::StackUnderflow)
            } else {
                Ok(Machine { pc: self.stack.last(), stack: self.stack.drop_last(), ..self })
            },
            Opcode::Jump { addr } => Ok(Machine { pc: addr, ..self }),
            Opcode::Call { addr } => if self.stack.len() >= STACK_DEPTH {
                Err(Fault::StackOverflow)
            } else {
                Ok(Machine { pc: addr, stack: self.stack.push(self.pc), ..self })
            },
            Opcode::SkipEq { x, nn } => Ok(self.skip_if(self.v[x as int] == nn)),
            Opcode::SkipNe { x, nn } => Ok(self.skip_if(self.v[x as int] != nn)),
            Opcode::SkipRegEq { x, y } => Ok(self.skip_if(self.v[x as int] == self.v[y as int])),
            Opcode::Load { x, nn } => Ok(Machine { v: self.v.update(x as int, nn), ..self }),
            Opcode::Add { x, nn } => Ok(
                Machine {
                    v: self.v.update(x as int, ((self.v[x as int] + nn) % 256) as u8),
                    ..self
                },
            ),
            Opcode::Alu { alu: op, x, y } => Ok(
                Machine { v: alu(self.v, op, x as int, y as int), ..self },
            ),
            Opcode::SkipRegNe { x, y } => Ok(self.skip_if(self.v[x as int] != self.v[y as int])),
            Opcode::Index { addr } => Ok(Machine { i: addr, ..self }),
            Opcode::JumpOffset { addr } => Ok(Machine { pc: (addr + self.v[0]) as u16, ..self }),
            Opcode::Random { x, nn } => Ok(Machine { v: self.v.update(x as int, rnd & nn), ..self }),
            Opcode::Draw { x, y, n } => Ok(self.draw(self.v[x as int], self.v[y as int], n as int)),
            Opcode::SkipKey { x } => if self.v[x as int] >= 16 {
                Err(Fault::Key { key: self.v[x as int] })
            } else {
                Ok(self.skip_if(keys[self.v[x as int] as int]))
            },
            Opcode::SkipNoKey { x } => if self.v[x as int] >= 16 {
                Err(Fault::Key { key: self.v[x as int] })
            } else {
                Ok(self.skip_if(!keys[self.v[x as int] as int]))
            },
            Opcode::Misc { misc: op, x } => Ok(self.misc(op, x as int, keys)),
        }
    }

    /// The machine with the program counter moved past the instruction it
    /// points at.
    pub open spec fn advanced(self) -> Machine {
        Machine { pc: (self.pc + 2) as u16, ..self }
    }

    /// One step of the machine: fetch the word at the program counter,
    /// advance the program counter by two, decode, execute. The result is
    /// the machine after the step, or the fault that stops it.
    pub open spec fn step(self, keys: Seq<bool>, rnd: u8) -> Result<Machine, Fault> {
        match self.next_op() {
            Ok(op) => self.advanced().apply(op, keys, rnd),
            Err(fault) => Err(fault),
        }
    }

    /// The machine after as many steps as `rnds` has bytes, the keypad
    /// staying in the state `keys` and each step taking its random byte from
    /// `rnds` in order; or the fault that stopped the run.
    pub open spec fn run(self, keys: Seq<bool>, rnds: Seq<u8>) -> Result<Machine, Fault>
        decreases rnds.len(),
    {
        if rnds.len() == 0 {
            Ok(self)
        } else {
            match self.run(keys, rnds.drop_last()) {
                Ok(m) => m.step(keys, rnds.last()),
                Err(fault) => Err(fault),
            }
        }
    }

    /// The machine after one tick of the 60 Hz clock: each timer is one
    /// lower, or still zero.
    pub open spec fn ticked(self) -> Machine {
        Machine { dt: decayed(self.dt), st: decayed(self.st), ..self }
    }
}

} // verus!
