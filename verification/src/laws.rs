//! What holds of the instruction set, proved from its definition.

use vstd::prelude::*;
use crate::display::{collides, covers, drawn, grid_wf, EdgeMode, Grid, HEIGHT, WIDTH};
use crate::instruction::{AluOp, MiscOp, Opcode};
use crate::machine::{alu, sprite_rows, Machine};
use crate::stack::STACK_DEPTH;
use crate::timer::decayed_by;

verus! {

/// The value of the flag register after an addition of `a` and `b`.
pub open spec fn carry(a: u8, b: u8) -> u8 {
    if a + b > 255 {
        1
    } else {
        0
    }
}

/// The value of the flag register after the subtraction `a - b`: 0 where it
/// borrows.
pub open spec fn no_borrow(a: u8, b: u8) -> u8 {
    if a < b {
        0
    } else {
        1
    }
}

/// Addition of registers: with `VX = a` and `VY = b`, `8XY4` leaves
/// `(a + b) mod 256` in `VX` and sets `VF` to 1 exactly if `a + b` exceeds
/// 255. Where `X` is the flag register itself, the flag is what it holds
/// afterwards, so the sum is found there only where the two agree.
pub proof fn law_add_carry(v: Seq<u8>, x: u8, y: u8, a: u8, b: u8)
    requires
        v.len() == 16,
        x < 16,
        y < 16,
        v[x as int] == a,
        v[y as int] == b,
        x == 0xF ==> (a + b) % 256 == carry(a, b),
    ensures
        alu(v, AluOp::Add, x as int, y as int)[x as int] == (a + b) % 256,
        alu(v, AluOp::Add, x as int, y as int)[0xF] == 1 <==> a + b > 255,
        alu(v, AluOp::Add, x as int, y as int)[0xF] == carry(a, b),
{
}

/// Subtraction of registers: with `VX = a` and `VY = b`, `8XY5` leaves
/// `(a - b) mod 256` in `VX` and sets `VF` to 0 exactly if `a < b`, and to 1
/// otherwise. Where `X` is the flag register itself, the flag is what it
/// holds afterwards, so the difference is found there only where the two
/// agree.
pub proof fn law_sub_borrow(v: Seq<u8>, x: u8, y: u8, a: u8, b: u8)
    requires
        v.len() == 16,
        x < 16,
        y < 16,
        v[x as int] == a,
        v[y as int] == b,
        x == 0xF ==> (a - b) % 256 == no_borrow(a, b),
    ensures
        alu(v, AluOp::Sub, x as int, y as int)[x as int] == (a - b) % 256,
        alu(v, AluOp::Sub, x as int, y as int)[0xF] == 0 <==> a < b,
        alu(v, AluOp::Sub, x as int, y as int)[0xF] == no_borrow(a, b),
{
}

/// Whether the sprite `rows` at `(x, y)` has a set bit on a pixel of `g`
/// that is unset.
pub open spec fn lights(g: Grid, rows: Seq<u8>, x: u8, y: u8, edges: EdgeMode) -> bool {
    exists|px: int, py: int|
        0 <= px < WIDTH && 0 <= py < HEIGHT && #[trigger] covers(rows, x, y, edges, px, py)
            && !g[px][py].lit()
}

/// Drawing the same sprite twice at the same place gives back the pixels
/// that were there before the first draw.
pub proof fn law_draw_twice_restores(g: Grid, rows: Seq<u8>, x: u8, y: u8, edges: EdgeMode)
    requires
        grid_wf(g),
    ensures
        drawn(drawn(g, rows, x, y, edges), rows, x, y, edges) == g,
{
    assert(drawn(drawn(g, rows, x, y, edges), rows, x, y, edges) =~~= g);
}

/// The second of two equal draws unsets exactly the pixels that the first
/// one set: it collides if and only if the sprite has a set bit on a pixel
/// that was unset before the first draw.
pub proof fn law_second_draw_collides(g: Grid, rows: Seq<u8>, x: u8, y: u8, edges: EdgeMode)
    requires
        grid_wf(g),
    ensures
        collides(drawn(g, rows, x, y, edges), rows, x, y, edges) == lights(g, rows, x, y, edges),
{
    let mid = drawn(g, rows, x, y, edges);
    if collides(mid, rows, x, y, edges) {
        let (px, py) = choose|px: int, py: int|
            0 <= px < WIDTH && 0 <= py < HEIGHT && #[trigger] covers(rows, x, y, edges, px, py)
                && mid[px][py].lit();
        assert(covers(rows, x, y, edges, px, py) && !g[px][py].lit());
    }
    if lights(g, rows, x, y, edges) {
        let (px, py) = choose|px: int, py: int|
            0 <= px < WIDTH && 0 <= py < HEIGHT && #[trigger] covers(rows, x, y, edges, px, py)
                && !g[px][py].lit();
        assert(covers(rows, x, y, edges, px, py) && mid[px][py].lit());
    }
}

/// Drawing the sprite at `I` twice at `(x, y)` restores the display, and
/// leaves memory and `I` as they were. The flag of the second draw equals
/// the flag of the first where the sprite's set bits lie on both a set and
/// an unset pixel, or on neither.
pub proof fn law_draw_twice(m: Machine, x: u8, y: u8, n: int)
    requires
        m.wf(),
        0 <= n,
    ensures
        m.draw(x, y, n).draw(x, y, n).screen == m.screen,
        m.draw(x, y, n).draw(x, y, n).memory == m.memory,
        m.draw(x, y, n).draw(x, y, n).i == m.i,
        collides(m.screen, sprite_rows(m.memory, m.i, n), x, y, m.edges) == lights(
            m.screen,
            sprite_rows(m.memory, m.i, n),
            x,
            y,
            m.edges,
        ) ==> m.draw(x, y, n).draw(x, y, n).v[0xF] == m.draw(x, y, n).v[0xF],
{
    let rows = sprite_rows(m.memory, m.i, n);
    law_draw_twice_restores(m.screen, rows, x, y, m.edges);
    law_second_draw_collides(m.screen, rows, x, y, m.edges);
}

/// Loading an immediate: a step that runs `6XNN` leaves the program counter
/// two above where it was and `NN` in `VX`.
pub proof fn law_load_immediate(m: Machine, x: u8, nn: u8, keys: Seq<bool>, rnd: u8)
    requires
        m.wf(),
        m.next_op() == Ok::<Opcode, crate::fault::Fault>(Opcode::Load { x, nn }),
    ensures
        m.step(keys, rnd) is Ok,
        m.step(keys, rnd)->Ok_0.pc == m.pc + 2,
        m.step(keys, rnd)->Ok_0.v[x as int] == nn,
{
    m.word().lemma_opcode_wf();
}

/// A call followed at once by a return comes back to the instruction after
/// the call, with the stack as it was before the call.
pub proof fn law_call_return(
    m: Machine,
    addr: u16,
    keys: Seq<bool>,
    rnd: u8,
    keys_after: Seq<bool>,
    rnd_after: u8,
)
    requires
        m.wf(),
        m.stack.len() < STACK_DEPTH,
        m.next_op() == Ok::<Opcode, crate::fault::Fault>(Opcode::Call { addr }),
        m.step(keys, rnd)->Ok_0.next_op() == Ok::<Opcode, crate::fault::Fault>(Opcode::Return),
    ensures
        m.step(keys, rnd) is Ok,
        m.step(keys, rnd)->Ok_0.step(keys_after, rnd_after) is Ok,
        m.step(keys, rnd)->Ok_0.step(keys_after, rnd_after)->Ok_0.pc == m.pc + 2,
        m.step(keys, rnd)->Ok_0.step(keys_after, rnd_after)->Ok_0.stack == m.stack,
{
    let called = m.step(keys, rnd)->Ok_0;
    assert(called.stack == m.stack.push((m.pc + 2) as u16));
    assert(called.stack.drop_last() =~= m.stack);
}

/// Whether the skip instruction `op` finds its condition true in `m`.
pub open spec fn skips(m: Machine, op: Opcode) -> bool {
    match op {
        Opcode::SkipEq { x, nn } => m.v[x as int] == nn,
        Opcode::SkipNe { x, nn } => m.v[x as int] != nn,
        Opcode::SkipRegEq { x, y } => m.v[x as int] == m.v[y as int],
        Opcode::SkipRegNe { x, y } => m.v[x as int] != m.v[y as int],
        _ => false,
    }
}

/// A step that runs one of the skips `3XNN`, `4XNN`, `5XY0`, `9XY0` moves
/// the program counter by four where the condition holds and by two where
/// it does not, and changes nothing else.
pub proof fn law_skip(m: Machine, op: Opcode, keys: Seq<bool>, rnd: u8)
    requires
        m.wf(),
        m.next_op() == Ok::<Opcode, crate::fault::Fault>(op),
        op is SkipEq || op is SkipNe || op is SkipRegEq || op is SkipRegNe,
    ensures
        m.step(keys, rnd) == Ok::<Machine, crate::fault::Fault>(
            Machine {
                pc: (m.pc + (if skips(m, op) {
                    4int
                } else {
                    2int
                })) as u16,
                ..m
            },
        ),
        m.step(keys, rnd)->Ok_0.pc == m.pc + (if skips(m, op) {
            4int
        } else {
            2int
        }),
{
}

/// The machine after `n` ticks of the clock.
pub open spec fn ticked_by(m: Machine, n: nat) -> Machine
    decreases n,
{
    if n == 0 {
        m
    } else {
        ticked_by(m, (n - 1) as nat).ticked()
    }
}

/// However often the clock ticks, a timer stands at what it stood at less
/// the number of ticks, and at zero once that would be negative: it never
/// wraps around. Nothing but the timers changes.
pub proof fn law_timers_floor(m: Machine, n: nat)
    ensures
        ticked_by(m, n) == (Machine {
            dt: decayed_by(m.dt, n),
            st: decayed_by(m.st, n),
            ..m
        }),
        ticked_by(m, n).dt as int == (if m.dt as int >= n as int {
            m.dt as int - n as int
        } else {
            0
        }),
        ticked_by(m, n).st as int == (if m.st as int >= n as int {
            m.st as int - n as int
        } else {
            0
        }),
    decreases n,
{
    if n > 0 {
        law_timers_floor(m, (n - 1) as nat);
    }
    crate::timer::lemma_decay_floor(m.dt, n);
    crate::timer::lemma_decay_floor(m.st, n);
}

/// A timer that an instruction sets to zero is zero after any number of
/// ticks.
pub proof fn law_timer_zero_stays(m: Machine, x: u8, keys: Seq<bool>, n: nat)
    requires
        m.wf(),
        x < 16,
        m.v[x as int] == 0,
    ensures
        ticked_by(m.misc(MiscOp::SetDelay, x as int, keys), n).dt == 0,
        ticked_by(m.misc(MiscOp::SetSound, x as int, keys), n).st == 0,
{
    law_timers_floor(m.misc(MiscOp::SetDelay, x as int, keys), n);
    law_timers_floor(m.misc(MiscOp::SetSound, x as int, keys), n);
}

} // verus!
