//! The delay and sound timers: byte counters that a 60 Hz clock runs down.
//!
//! A counter is written by the instruction stream and decremented by the
//! clock. The decrement stops at zero and never wraps.

use vstd::prelude::*;

verus! {

/// The rate, in ticks per second, at which the timers count down.
pub const TIMER_FREQ: u32 = 60;

/// What the audio output is told after a clock tick.
#[derive(Debug, Clone, Copy, PartialEq, Eq, Structural)]
pub enum ToneChange {
    /// The tone is off and has to sound: start it.
    Start,
    /// The tone sounds and has to stop: stop it.
    Stop,
    /// The output is already in the wanted state.
    Keep,
}

/// One counter that runs down to zero.
#[derive(Debug, Clone, Copy, PartialEq, Eq, Structural)]
pub struct Timer {
    pub count: u8,
}

/// The counter value one tick after `v`: one less, but never below zero.
pub open spec fn decayed(v: u8) -> u8 {
    if v > 0 {
        (v - 1) as u8
    } else {
        0
    }
}

/// The counter value `n` ticks after `v`.
pub open spec fn decayed_by(v: u8, n: nat) -> u8
    decreases n,
{
    if n == 0 {
        v
    } else {
        decayed(decayed_by(v, (n - 1) as nat))
    }
}

/// The counter value one tick after `v`. A host that keeps a counter where
/// the clock can reach it applies this function to it in one atomic update.
pub fn decay(v: u8) -> (out: u8)
    ensures
        out == decayed(v),
{
    if v > 0 {
        v - 1
    } else {
        0
    }
}

/// How to bring the audio output from `playing` to `enable`.
pub fn tone_change(enable: bool, playing: bool) -> (out: ToneChange)
    ensures
        out == (if enable && !playing {
            ToneChange::Start
        } else if !enable && playing {
            ToneChange::Stop
        } else {
            ToneChange::Keep
        }),
{
    match (enable, playing) {
        (true, false) => ToneChange::Start,
        (false, true) => ToneChange::Stop,
        _ => ToneChange::Keep,
    }
}

impl Timer {
    /// A timer at zero.
    pub fn new() -> (out: Timer)
        ensures
            out.count == 0,
    {
        Timer { count: 0 }
    }

    /// The current count.
    pub fn get(&self) -> (out: u8)
        ensures
            out == self.count,
    {
        self.count
    }

    /// Sets the count, as the instruction stream does.
    pub fn set(&mut self, v: u8)
        ensures
            final(self).count == v,
    {
        self.count = v;
    }

    /// One clock tick: the count goes down by one and stays at zero once
    /// there.
    pub fn tick(&mut self)
        ensures
            final(self).count == decayed(old(self).count),
    {
        self.count = decay(self.count);
    }

    /// Whether the count is above zero.
    pub fn is_active(&self) -> (out: bool)
        ensures
            out == (self.count > 0),
    {
        self.count > 0
    }
}

impl Default for Timer {
    /// A timer starts at zero.
    fn default() -> (out: Timer)
        ensures
            out.count == 0,
    {
        Timer::new()
    }
}

/// After `n` ticks a counter that stood at `v` stands at `v - n`, or at zero
/// where `n` exceeds `v`: it never wraps below zero.
pub proof fn lemma_decay_floor(v: u8, n: nat)
    ensures
        decayed_by(v, n) as int == (if v as int >= n as int { v as int - n as int } else { 0 }),
    decreases n,
{
    if n > 0 {
        lemma_decay_floor(v, (n - 1) as nat);
    }
}

/// A counter at zero stays at zero however often the clock ticks.
pub proof fn lemma_decay_zero(n: nat)
    ensures
        decayed_by(0, n) == 0,
{
    lemma_decay_floor(0, n);
}

/// A tick never raises a counter.
pub proof fn lemma_decay_monotone(v: u8, n: nat)
    ensures
        decayed_by(v, n + 1) <= decayed_by(v, n) <= v,
{
    lemma_decay_floor(v, n);
    lemma_decay_floor(v, n + 1);
}

} // verus!
