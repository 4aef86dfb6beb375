//! The two rates of the machine, and the arithmetic of keeping to them.
//!
//! Instructions run at [`FREQ`] per second, in batches: the host runs a
//! batch, presents the display, and sleeps for what is left of the batch's
//! time. The timers count down at [`TIMER_FREQ`] per second, whatever the
//! instructions do.

use vstd::prelude::*;
use crate::cpu::FREQ;
use crate::timer::TIMER_FREQ;

verus! {

/// The number of steps between two presentations of the display.
pub const BATCH: u32 = 16;

/// The time, in nanoseconds, that `batch` steps take at the nominal rate.
pub open spec fn batch_time(batch: u32) -> int {
    batch as int * (1_000_000_000int / FREQ as int)
}

/// The time, in nanoseconds, that `batch` steps take at the nominal rate.
pub fn batch_nanos(batch: u32) -> (out: u64)
    ensures
        out as int == batch_time(batch),
        out as int == batch as int * 2_500_000,
{
    let step: u64 = 1_000_000_000u64 / FREQ as u64;
    assert(FREQ == 400);
    assert(1_000_000_000u64 / 400u64 == 2_500_000);
    assert(step == 2_500_000);
    batch as u64 * step
}

/// How long, in nanoseconds, to sleep after a batch of `batch` steps that
/// took `elapsed` nanoseconds: what is left of the batch's time, and nothing
/// where the batch overran it.
pub fn pause_nanos(batch: u32, elapsed: u64) -> (out: u64)
    ensures
        out as int == (if batch_time(batch) >= elapsed as int {
            batch_time(batch) - elapsed as int
        } else {
            0
        }),
{
    let budget = batch_nanos(batch);
    if budget >= elapsed {
        budget - elapsed
    } else {
        0
    }
}

/// The time between two ticks of the timer clock, in whole milliseconds.
pub fn tick_millis() -> (out: u32)
    ensures
        out == 1000int / TIMER_FREQ as int,
        out == 16,
{
    1000 / TIMER_FREQ
}

} // verus!
