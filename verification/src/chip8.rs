//! The interpreter: fetch, decode and execute over the machine's parts.

use vstd::prelude::*;
use crate::cpu::{CPU, ENTRY};
use crate::display::{
    collides, drawn, grid_wf, lemma_draw_last_row, lemma_draw_nothing, lemma_draw_row_clipped,
    offset, Display, EdgeMode, HEIGHT,
};
use crate::fault::{Fault, LoadError, MAX_PROGRAM};
use crate::instruction::{AluOp, Instruction, MiscOp, Opcode};
use crate::keyboard::Keyboard;
use crate::machine::{alu, bcd_stored, regs_loaded, regs_stored, sprite_rows, Machine};
use crate::random::random_byte;
use crate::memory::Memory;
use crate::registers::FLAG;
use crate::stack::Stack;

verus! {

/// The virtual machine.
#[derive(Debug, Clone, Copy, PartialEq, Eq)]
pub struct Chip8 {
    /// Registers, address register, program counter and timers.
    pub cpu: CPU,
    /// The return addresses of the calls in progress.
    pub stack: Stack,
    /// The display.
    pub display: Display,
    /// The address space.
    pub memory: Memory,
    /// What a draw does with the part of a sprite that reaches past an edge
    /// of the display.
    pub edges: EdgeMode,
}

impl View for Chip8 {
    type V = Machine;

    /// The machine as a mathematical value.
    open spec fn view(&self) -> Machine {
        Machine {
            v: self.cpu.v@,
            i: self.cpu.i,
            pc: self.cpu.pc,
            dt: self.cpu.dt.count,
            st: self.cpu.st.count,
            stack: self.stack@,
            memory: self.memory@,
            screen: self.display@,
            dirty: self.display.dirty,
            edges: self.edges,
        }
    }
}

impl Chip8 {
    /// The machine at power-on, with no program loaded.
    pub fn new() -> (out: Chip8)
        ensures
            out@ == Machine::loaded(Seq::empty()),
    {
        let out = Chip8 {
            cpu: CPU::new(),
            stack: Stack::new(),
            display: Display::new(),
            memory: Memory::new(),
            edges: EdgeMode::Wrap,
        };
        assert(out@.memory =~= Machine::loaded(Seq::empty()).memory);
        out
    }

    /// The machine at power-on with the program `game` in memory from the
    /// entry address on. A program of more than [`MAX_PROGRAM`] bytes is
    /// refused.
    pub fn from_game(game: Vec<u8>) -> (out: Result<Chip8, LoadError>)
        ensures
            game.len() <= MAX_PROGRAM ==> out is Ok && out->Ok_0@ == Machine::loaded(game@),
            game.len() > MAX_PROGRAM ==> out == Err::<Chip8, LoadError>(
                LoadError::TooLarge { len: game.len() },
            ),
    {
        let mut me = Chip8::new();
        if game.len() > MAX_PROGRAM {
            return Err(LoadError::TooLarge { len: game.len() });
        }
        let mut k: usize = 0;
        while k < game.len()
            invariant
                k <= game.len() <= MAX_PROGRAM,
                me@ == (Machine { memory: me.memory@, ..Machine::loaded(Seq::empty()) }),
                forall|a: int|
                    0 <= a < 0x1000 ==> me.memory@[a] == (if 0x200 <= a < 0x200 + k {
                        game@[a - 0x200]
                    } else {
                        Memory::initial()[a]
                    }),
            decreases game.len() - k,
        {
            let ghost before = me.memory@;
            me.memory.set(ENTRY + k as u16, game[k]);
            assert(me.memory@ == before.update(0x200 + k as int, game@[k as int]));
            k += 1;
        }
        assert(me@.memory =~= Machine::loaded(game@).memory);
        Ok(me)
    }

    /// The same machine with the edge mode `edges`.
    pub fn with_edges(self, edges: EdgeMode) -> (out: Chip8)
        ensures
            out@ == (Machine { edges, ..self@ }),
    {
        Chip8 { edges, ..self }
    }

    /// The instruction word at `addr`: the byte there and the one after it,
    /// the first being the high byte.
    pub fn read_inst(&self, addr: u16) -> (inst: Instruction)
        requires
            addr <= 0xFFE,
        ensures
            inst == Instruction::spec_from_bytes(self@.memory[addr as int], self@.memory[addr + 1]),
    {
        Instruction::from_bytes(self.memory.get(addr), self.memory.get(addr + 1))
    }

    /// Executes the register-to-register instruction `math`, a word of the
    /// group `8XY_` whose last nibble selects a defined operation.
    pub fn math(&mut self, math: Instruction)
        requires
            AluOp::of(math.nibble(3)) is Some,
        ensures
            final(self)@ == (Machine {
                v: alu(
                    old(self)@.v,
                    AluOp::of(math.nibble(3))->Some_0,
                    math.x() as int,
                    math.y() as int,
                ),
                ..old(self)@
            }),
    {
        let x = math.get_quater(1);
        let y = math.get_quater(2);
        let vx = self.cpu.v.get(x);
        let vy = self.cpu.v.get(y);
        match AluOp::from_nibble(math.get_quater(3)) {
            Some(AluOp::Move) => self.cpu.v.set(x, vy),
            Some(AluOp::Or) => self.cpu.v.set(x, vx | vy),
            Some(AluOp::And) => self.cpu.v.set(x, vx & vy),
            Some(AluOp::Xor) => self.cpu.v.set(x, vx ^ vy),
            Some(AluOp::Add) => {
                let carry = vx as u16 + vy as u16 > 0xFF;
                self.cpu.v.set(x, vx.wrapping_add(vy));
                self.cpu.v.set(FLAG, if carry { 1 } else { 0 });
            },
            Some(AluOp::Sub) => {
                let borrow = vx < vy;
                self.cpu.v.set(x, vx.wrapping_sub(vy));
                self.cpu.v.set(FLAG, if borrow { 0 } else { 1 });
            },
            Some(AluOp::ShiftRight) => {
                self.cpu.v.set(FLAG, vy % 2);
                let shifted = self.cpu.v.get(y) / 2;
                self.cpu.v.set(y, shifted);
                self.cpu.v.set(x, shifted);
            },
            Some(AluOp::SubFrom) => {
                let borrow = vy < vx;
                self.cpu.v.set(x, vy.wrapping_sub(vx));
                self.cpu.v.set(FLAG, if borrow { 0 } else { 1 });
            },
            Some(AluOp::ShiftLeft) => {
                self.cpu.v.set(FLAG, vy / 128);
                let shifted = ((self.cpu.v.get(y) as u16 * 2) % 256) as u8;
                self.cpu.v.set(y, shifted);
                self.cpu.v.set(x, shifted);
            },
            None => {},
        }
    }

    /// Executes the instruction `io`, a word of the group `FX__` whose low
    /// byte selects a defined operation, with the keypad in the state `kbd`.
    /// Waiting for a key never blocks: with no key down the program counter
    /// moves back by one instruction.
    pub fn io(&mut self, io: Instruction, kbd: &Keyboard)
        requires
            MiscOp::of(io.byte()) is Some,
        ensures
            final(self)@ == old(self)@.misc(MiscOp::of(io.byte())->Some_0, io.x() as int, kbd@),
    {
        let x = io.get_quater(1);
        let vx = self.cpu.v.get(x);
        match MiscOp::from_byte(io.get_byte()) {
            Some(MiscOp::ReadDelay) => self.cpu.v.set(x, self.cpu.dt.get()),
            Some(MiscOp::WaitKey) => match kbd.first_pressed() {
                Some(k) => self.cpu.v.set(x, k),
                None => self.cpu.pc = self.cpu.pc.wrapping_sub(2),
            },
            Some(MiscOp::SetDelay) => self.cpu.dt.set(vx),
            Some(MiscOp::SetSound) => self.cpu.st.set(vx),
            Some(MiscOp::AddIndex) => self.cpu.i = self.cpu.i.wrapping_add(vx as u16),
            Some(MiscOp::Glyph) => self.cpu.i = Memory::digit(vx),
            Some(MiscOp::Bcd) => {
                self.memory.set(Memory::locate(self.cpu.i, 2), vx % 10);
                self.memory.set(Memory::locate(self.cpu.i, 1), vx / 10 % 10);
                self.memory.set(Memory::locate(self.cpu.i, 0), vx / 100);
            },
            Some(MiscOp::Store) => {
                let mut k: u8 = 0;
                while k <= x
                    invariant
                        k <= x + 1,
                        x < 16,
                        self.cpu == old(self).cpu,
                        self.stack == old(self).stack,
                        self.display == old(self).display,
                        self.edges == old(self).edges,
                        self.memory@ == regs_stored(
                            old(self).memory@,
                            self.cpu.i,
                            self.cpu.v@,
                            k - 1,
                        ),
                    decreases x + 1 - k,
                {
                    let ghost before = self.memory@;
                    let at = Memory::locate(self.cpu.i, k);
                    self.memory.set(at, self.cpu.v.get(k));
                    assert(self.memory@ =~= regs_stored(
                        old(self).memory@,
                        self.cpu.i,
                        self.cpu.v@,
                        k as int,
                    ));
                    k += 1;
                }
            },
            Some(MiscOp::Load) => {
                let mut k: u8 = 0;
                while k <= x
                    invariant
                        k <= x + 1,
                        x < 16,
                        self.cpu.i == old(self).cpu.i,
                        self.cpu.pc == old(self).cpu.pc,
                        self.cpu.dt == old(self).cpu.dt,
                        self.cpu.st == old(self).cpu.st,
                        self.stack == old(self).stack,
                        self.display == old(self).display,
                        self.edges == old(self).edges,
                        self.memory == old(self).memory,
                        self.cpu.v@ == regs_loaded(
                            old(self).cpu.v@,
                            self.memory@,
                            self.cpu.i,
                            k - 1,
                        ),
                    decreases x + 1 - k,
                {
                    let at = Memory::locate(self.cpu.i, k);
                    self.cpu.v.set(k, self.memory.get(at));
                    assert(self.cpu.v@ =~= regs_loaded(
                        old(self).cpu.v@,
                        self.memory@,
                        self.cpu.i,
                        k as int,
                    ));
                    k += 1;
                }
            },
            None => {},
        }
        proof {
            let op = MiscOp::of(io.byte())->Some_0;
            if op == MiscOp::Store {
                assert(self@.memory =~= old(self)@.misc(op, io.x() as int, kbd@).memory);
            }
            if op == MiscOp::Load {
                assert(self@.v =~= old(self)@.misc(op, io.x() as int, kbd@).v);
            }
        }
    }

    /// Draws the sprite of `n` rows that memory holds at `I` with its top
    /// left corner at `(x, y)`. Each set bit of the sprite toggles the pixel
    /// under it; `VF` becomes 1 if that unset any pixel and 0 if not. `I` and
    /// memory stay as they are. A sprite is no taller than the display; an
    /// instruction asks for fifteen rows at most.
    pub fn draw_sprite(&mut self, x: u8, y: u8, n: u8)
        requires
            n <= HEIGHT,
        ensures
            final(self)@ == old(self)@.draw(x, y, n as int),
    {
        let ghost g0 = self.display@;
        let mut flag = false;
        let mut row: u8 = 0;
        self.display.dirty = true;
        proof {
            lemma_draw_nothing(g0, x, y, self.edges);
            assert(sprite_rows(self.memory@, self.cpu.i, 0) =~= Seq::empty());
        }
        while row < n
            invariant
                row <= n <= HEIGHT,
                grid_wf(g0),
                g0 == old(self).display@,
                self.cpu == old(self).cpu,
                self.stack == old(self).stack,
                self.memory == old(self).memory,
                self.edges == old(self).edges,
                self.display.dirty,
                self.display@ == drawn(
                    g0,
                    sprite_rows(self.memory@, self.cpu.i, row as int),
                    x,
                    y,
                    self.edges,
                ),
                flag == collides(
                    g0,
                    sprite_rows(self.memory@, self.cpu.i, row as int),
                    x,
                    y,
                    self.edges,
                ),
            decreases n - row,
        {
            let bits = self.memory.get(Memory::locate(self.cpu.i, row));
            let place: Option<u8> = match self.edges {
                EdgeMode::Wrap => Some(((y as u16 + row as u16) % 32) as u8),
                EdgeMode::Clip => if y as u16 + (row as u16) < 32 {
                    Some(y + row)
                } else {
                    None
                },
            };
            let ghost rows = sprite_rows(self.memory@, self.cpu.i, row + 1);
            proof {
                assert(rows.drop_last() =~= sprite_rows(self.memory@, self.cpu.i, row as int));
                assert(rows.last() == bits);
            }
            match place {
                Some(py) => {
                    let erased = self.display.draw_row(x, py, bits, self.edges);
                    if erased {
                        flag = true;
                    }
                    proof {
                        lemma_draw_last_row(g0, rows, x, y, self.edges, py as int);
                    }
                },
                None => {
                    proof {
                        lemma_draw_row_clipped(g0, rows, x, y, self.edges);
                    }
                },
            }
            row += 1;
        }
        self.cpu.v.set(FLAG, if flag { 1 } else { 0 });
    }

    /// The instruction that the next step runs, or the fault that fetching
    /// or decoding it raises. The machine is not changed.
    pub fn fetch(&self) -> (out: Result<Opcode, Fault>)
        ensures
            out == self@.next_op(),
            out matches Ok(op) ==> op.wf(),
    {
        if self.cpu.pc > 0xFFE {
            return Err(Fault::Fetch { pc: self.cpu.pc });
        }
        let inst = self.read_inst(self.cpu.pc);
        match inst.decode() {
            Some(op) => Ok(op),
            None => Err(Fault::Decode { inst }),
        }
    }

    /// What one step is, as a relation: `out` and the machine `after` are
    /// what a step from `before` gives, with the keypad in the state `keys`
    /// and with `rnd` for the random byte. A step that succeeds hands out
    /// the instruction it ran; one that fails leaves the machine as it was.
    pub open spec fn stepped(
        before: Chip8,
        after: Chip8,
        keys: Seq<bool>,
        rnd: u8,
        out: Result<Opcode, Fault>,
    ) -> bool {
        match out {
            Ok(op) => before@.next_op() == Ok::<Opcode, Fault>(op) && before@.step(keys, rnd)
                == Ok::<Machine, Fault>(after@),
            Err(fault) => before@.step(keys, rnd) == Err::<Machine, Fault>(fault) && after
                == before,
        }
    }

    /// One step with the random byte supplied: fetches the instruction at
    /// the program counter, advances the program counter by two, and
    /// executes the instruction, which uses `rnd` where it asks for a random
    /// byte.
    pub fn execute(&mut self, kbd: &Keyboard, rnd: u8) -> (out: Result<Opcode, Fault>)
        ensures
            Chip8::stepped(*old(self), *final(self), kbd@, rnd, out),
    {
        let op = match self.fetch() {
            Ok(op) => op,
            Err(fault) => {
                return Err(fault);
            },
        };
        let inst = self.read_inst(self.cpu.pc);
        match op {
            Opcode::Return => if self.stack.is_empty() {
                return Err(Fault::StackUnderflow);
            },
            Opcode::Call { .. } => if self.stack.is_full() {
                return Err(Fault::StackOverflow);
            },
            Opcode::SkipKey { x } | Opcode::SkipNoKey { x } => {
                let key = self.cpu.v.get(x);
                if key >= 16 {
                    return Err(Fault::Key { key });
                }
            },
            _ => {},
        }
        self.cpu.pc += 2;
        match op {
            Opcode::Clear => self.display.clear(),
            Opcode::Return => self.cpu.pc = self.stack.pop(),
            Opcode::Jump { addr } => self.cpu.pc = addr,
            Opcode::Call { addr } => {
                self.stack.push(self.cpu.pc);
                self.cpu.pc = addr;
            },
            Opcode::SkipEq { x, nn } => if self.cpu.v.get(x) == nn {
                self.cpu.pc += 2;
            },
            Opcode::SkipNe { x, nn } => if self.cpu.v.get(x) != nn {
                self.cpu.pc += 2;
            },
            Opcode::SkipRegEq { x, y } => if self.cpu.v.get(x) == self.cpu.v.get(y) {
                self.cpu.pc += 2;
            },
            Opcode::Load { x, nn } => self.cpu.v.set(x, nn),
            Opcode::Add { x, nn } => {
                let sum = self.cpu.v.get(x).wrapping_add(nn);
                self.cpu.v.set(x, sum);
            },
            Opcode::Alu { .. } => self.math(inst),
            Opcode::SkipRegNe { x, y } => if self.cpu.v.get(x) != self.cpu.v.get(y) {
                self.cpu.pc += 2;
            },
            Opcode::Index { addr } => self.cpu.i = addr,
            Opcode::JumpOffset { addr } => self.cpu.pc = addr + self.cpu.v.get(0) as u16,
            Opcode::Random { x, nn } => self.cpu.v.set(x, rnd & nn),
            Opcode::Draw { x, y, n } => {
                let vx = self.cpu.v.get(x);
                let vy = self.cpu.v.get(y);
                self.draw_sprite(vx, vy, n);
            },
            Opcode::SkipKey { x } => if kbd.is_pressed(self.cpu.v.get(x)) {
                self.cpu.pc += 2;
            },
            Opcode::SkipNoKey { x } => if !kbd.is_pressed(self.cpu.v.get(x)) {
                self.cpu.pc += 2;
            },
            Opcode::Misc { .. } => self.io(inst, kbd),
        }
        Ok(op)
    }

    /// One step of the machine: fetch, advance the program counter, decode,
    /// execute. A `CXNN` instruction draws its byte from the random source;
    /// the step is then [`Chip8::execute`] with that byte, and with any other
    /// instruction [`Chip8::execute`] with any byte.
    pub fn step(&mut self, kbd: &Keyboard) -> (out: Result<Opcode, Fault>)
        ensures
            exists|rnd: u8| Chip8::stepped(*old(self), *final(self), kbd@, rnd, out),
            !(old(self)@.next_op() matches Ok(Opcode::Random { .. })) ==> forall|rnd: u8|
                Chip8::stepped(*old(self), *final(self), kbd@, rnd, out),
    {
        let rnd = match self.fetch() {
            Ok(Opcode::Random { .. }) => random_byte(),
            _ => 0,
        };
        let out = self.execute(kbd, rnd);
        proof {
            if !(old(self)@.next_op() matches Ok(Opcode::Random { .. })) {
                assert forall|other: u8|
                    Chip8::stepped(*old(self), *self, kbd@, other, out) by {
                    assert(old(self)@.step(kbd@, other) == old(self)@.step(kbd@, rnd));
                }
            }
        }
        out
    }

    /// What a run is, as a relation: `out` and the machine `after` are what
    /// running from `before` gives when the steps take their random bytes
    /// from `rnds`. A run that succeeds made one step for each byte. A run
    /// that fails made one step for each byte but the last, is left where
    /// those steps brought it, and failed in the step that follows.
    pub open spec fn ran(
        before: Chip8,
        after: Chip8,
        keys: Seq<bool>,
        rnds: Seq<u8>,
        out: Result<(), Fault>,
    ) -> bool {
        match out {
            Ok(_) => before@.run(keys, rnds) == Ok::<Machine, Fault>(after@),
            Err(fault) => rnds.len() > 0 && before@.run(keys, rnds.drop_last()) == Ok::<
                Machine,
                Fault,
            >(after@) && before@.run(keys, rnds) == Err::<Machine, Fault>(fault),
        }
    }

    /// Runs `steps` steps with the keypad in the state `kbd`, and stops
    /// early at the first step that fails.
    pub fn run(&mut self, kbd: &Keyboard, steps: u32) -> (out: Result<(), Fault>)
        ensures
            exists|rnds: Seq<u8>|
                #![trigger Chip8::ran(*old(self), *final(self), kbd@, rnds, out)]
                Chip8::ran(*old(self), *final(self), kbd@, rnds, out) && rnds.len() <= steps && (out
                    is Ok ==> rnds.len() == steps),
    {
        let ghost mut rnds: Seq<u8> = Seq::empty();
        let mut done: u32 = 0;
        while done < steps
            invariant
                done <= steps,
                rnds.len() == done,
                old(self)@.run(kbd@, rnds) == Ok::<Machine, Fault>(self@),
            decreases steps - done,
        {
            let ghost before = *self;
            let out = self.step(kbd);
            proof {
                let rnd = choose|rnd: u8| Chip8::stepped(before, *self, kbd@, rnd, out);
                let longer = rnds.push(rnd);
                assert(longer.drop_last() =~= rnds);
                assert(longer.last() == rnd);
                rnds = longer;
            }
            match out {
                Ok(_) => {},
                Err(fault) => {
                    assert(Chip8::ran(*old(self), *self, kbd@, rnds, Err::<(), Fault>(fault)));
                    return Err(fault);
                },
            }
            done += 1;
        }
        assert(Chip8::ran(*old(self), *self, kbd@, rnds, Ok::<(), Fault>(())));
        Ok(())
    }

    /// One tick of the 60 Hz clock: both timers count down by one, each
    /// stopping at zero. Says whether the tone has to sound: whether the
    /// sound timer is still above zero.
    pub fn tick(&mut self) -> (tone: bool)
        ensures
            final(self)@ == old(self)@.ticked(),
            tone == (final(self)@.st > 0),
    {
        self.cpu.dt.tick();
        self.cpu.st.tick();
        self.cpu.st.is_active()
    }
}

impl Default for Chip8 {
    /// The machine at power-on, with no program loaded.
    fn default() -> (out: Chip8)
        ensures
            out@ == Machine::loaded(Seq::empty()),
    {
        Chip8::new()
    }
}

} // verus!
