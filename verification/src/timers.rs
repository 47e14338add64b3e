//! The timer subsystem: two independent 8-bit countdown counters that
//! decrement once per fixed wall-clock period (60 Hz), decoupled from
//! instruction throughput. Elapsed time is handed in explicitly so a
//! host can drive it from a real clock and tests can inject synthetic
//! time deterministically.

use vstd::prelude::*;
use vstd::arithmetic::div_mod::lemma_fundamental_div_mod;
use vstd::arithmetic::div_mod::lemma_fundamental_div_mod_converse;

verus! {

/// The fixed decrement period in microseconds: 60 decrements per second.
pub const TICK_MICROS: u64 = 16666;

/// The delay and sound counters plus the not-yet-consumed remainder of
/// elapsed time since the last decrement.
#[derive(Clone, Copy, Debug, PartialEq, Eq, Structural)]
pub struct Timers {
    pub delay: u8,
    pub sound: u8,
    pub accum_micros: u64,
}

/// A counter after `ticks` decrements, saturating at zero rather than
/// wrapping negative.
pub open spec fn saturating_decrement(v: u8, ticks: int) -> u8 {
    if ticks >= v {
        0u8
    } else {
        (v - ticks) as u8
    }
}

impl Timers {
    /// Well-formedness: the carried remainder is always less than one
    /// full period (a full period would have been consumed as a tick).
    pub open spec fn wf(self) -> bool {
        self.accum_micros < TICK_MICROS
    }

    /// The state after absorbing `elapsed` microseconds: one decrement of
    /// both counters per full period crossed, remainder carried over.
    pub open spec fn advanced(self, elapsed: u64) -> Timers {
        let total = self.accum_micros + elapsed;
        let ticks = total / (TICK_MICROS as int);
        Timers {
            delay: saturating_decrement(self.delay, ticks),
            sound: saturating_decrement(self.sound, ticks),
            accum_micros: (total % (TICK_MICROS as int)) as u64,
        }
    }

    /// Both counters at zero, no elapsed time carried.
    pub fn new() -> (r: Timers)
        ensures
            r.delay == 0,
            r.sound == 0,
            r.accum_micros == 0,
            r.wf(),
    {
        Timers { delay: 0, sound: 0, accum_micros: 0 }
    }

    /// Absorbs elapsed wall-clock time: both counters decrement by one
    /// per full period crossed, each saturating at zero, and the
    /// remainder below one period is kept for the next call.
    pub fn update(&mut self, elapsed_micros: u64)
        requires
            old(self).wf(),
            old(self).accum_micros + elapsed_micros <= u64::MAX,
        ensures
            *final(self) == old(self).advanced(elapsed_micros),
            final(self).wf(),
    {
        let total: u64 = self.accum_micros + elapsed_micros;
        let ticks: u64 = total / TICK_MICROS;
        self.accum_micros = total % TICK_MICROS;
        if ticks >= self.delay as u64 {
            self.delay = 0;
        } else {
            self.delay = self.delay - (ticks as u8);
        }
        if ticks >= self.sound as u64 {
            self.sound = 0;
        } else {
            self.sound = self.sound - (ticks as u8);
        }
    }

    /// Reads the delay counter.
    pub fn delay_value(&self) -> (r: u8)
        ensures
            r == self.delay,
    {
        self.delay
    }

    /// Reads the sound counter.
    pub fn sound_value(&self) -> (r: u8)
        ensures
            r == self.sound,
    {
        self.sound
    }
}

/// Saturation composes: decrementing `a` times and then `b` more is the
/// same as decrementing `a + b` times at once.
proof fn lemma_saturating_decrement_add(v: u8, a: int, b: int)
    requires
        a >= 0,
        b >= 0,
    ensures
        saturating_decrement(saturating_decrement(v, a), b) == saturating_decrement(v, a + b),
{
}

/// Timer decay depends only on total elapsed time, not on how the
/// run-loop slices it into calls: advancing by `e1` and then by `e2`
/// leaves exactly the state of advancing by `e1 + e2` at once. With the
/// counters decrementing once per period, 1000 ms therefore always costs
/// exactly 60 ticks however often the periodic call is made.
pub proof fn lemma_advance_additive(t: Timers, e1: u64, e2: u64)
    requires
        t.wf(),
        t.accum_micros + e1 + e2 <= u64::MAX,
    ensures
        t.advanced(e1).advanced(e2) == t.advanced((e1 + e2) as u64),
{
    let tick = TICK_MICROS as int;
    let total1 = t.accum_micros + e1;
    let k1 = total1 / tick;
    let r1 = total1 % tick;
    lemma_fundamental_div_mod(total1, tick);
    let total2 = r1 + e2;
    let k2 = total2 / tick;
    let r2 = total2 % tick;
    lemma_fundamental_div_mod(total2, tick);
    let total = t.accum_micros + e1 + e2;
    assert(total == (k1 + k2) * tick + r2) by {
        assert(total1 == k1 * tick + r1);
        assert(total2 == k2 * tick + r2);
        assert((k1 + k2) * tick == k1 * tick + k2 * tick) by (nonlinear_arith);
    }
    assert(0 <= r2 < tick);
    assert(k1 >= 0 && k2 >= 0) by {
        assert(total1 >= 0 && total2 >= 0);
    }
    lemma_fundamental_div_mod_converse(total, tick, k1 + k2, r2);
    assert(total / tick == k1 + k2);
    assert(total % tick == r2);
    lemma_saturating_decrement_add(t.delay, k1, k2);
    lemma_saturating_decrement_add(t.sound, k1, k2);
}

} // verus!
