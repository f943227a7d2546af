//! Repeating timers and stopwatches over integer milliseconds.
//!
//! A `Timer` accumulates time and reports the tick on which it crossed its
//! period; crossing wraps the accumulator, so a short period fires again
//! and again. A stopwatch is a bare saturating accumulator.

use vstd::prelude::*;

verus! {

/// A repeating timer: fires each time `elapsed` reaches `duration`, then
/// wraps the overshoot into the next cycle.
#[derive(Clone, Copy, Debug, PartialEq, Eq, Structural)]
pub struct Timer {
    /// Period, in milliseconds; always positive.
    pub duration: u64,
    /// Time accumulated in the current cycle.
    pub elapsed: u64,
    /// Whether the period was crossed on the latest tick.
    pub just_finished: bool,
}

/// A well-formed timer: positive bounded period, accumulator inside the
/// cycle.
pub open spec fn timer_ok(t: Timer) -> bool {
    0 < t.duration <= 0x8000_0000_0000_0000 && t.elapsed < t.duration
}

/// The timer state after `dt` more milliseconds.
pub open spec fn timer_tick_spec(t: Timer, dt: u64) -> Timer
    recommends
        timer_ok(t),
{
    if t.elapsed + dt >= t.duration {
        Timer {
            duration: t.duration,
            elapsed: ((t.elapsed + dt) % (t.duration as int)) as u64,
            just_finished: true,
        }
    } else {
        Timer { duration: t.duration, elapsed: (t.elapsed + dt) as u64, just_finished: false }
    }
}

impl Timer {
    /// A fresh timer with the given period in milliseconds.
    pub fn new(duration: u64) -> (r: Timer)
        requires
            0 < duration <= 0x8000_0000_0000_0000,
        ensures
            r.duration == duration,
            r.elapsed == 0,
            !r.just_finished,
            timer_ok(r),
    {
        Timer { duration, elapsed: 0, just_finished: false }
    }

    /// Advances the timer by `dt` milliseconds.
    pub fn tick(&mut self, dt: u64)
        requires
            timer_ok(*old(self)),
            dt < 0x8000_0000_0000_0000,
        ensures
            *final(self) == timer_tick_spec(*old(self), dt),
            timer_ok(*final(self)),
    {
        let total = self.elapsed + dt;
        if total >= self.duration {
            self.elapsed = total % self.duration;
            self.just_finished = true;
        } else {
            self.elapsed = total;
            self.just_finished = false;
        }
    }

    /// Whether the period was crossed on the latest tick.
    pub fn finished(&self) -> (r: bool)
        ensures
            r == self.just_finished,
    {
        self.just_finished
    }

    /// Time accumulated in the current cycle, in milliseconds.
    pub fn elapsed_ms(&self) -> (r: u64)
        ensures
            r == self.elapsed,
    {
        self.elapsed
    }

    /// Starts the current cycle over.
    pub fn reset(&mut self)
        ensures
            final(self).duration == old(self).duration,
            final(self).elapsed == 0,
            !final(self).just_finished,
            timer_ok(*old(self)) ==> timer_ok(*final(self)),
    {
        self.elapsed = 0;
        self.just_finished = false;
    }
}

/// Saturating accumulation, for stopwatches and age clocks.
pub open spec fn watch_tick_spec(elapsed: u64, dt: u64) -> u64 {
    if elapsed + dt > u64::MAX {
        u64::MAX
    } else {
        (elapsed + dt) as u64
    }
}

/// Advances a stopwatch value by `dt`, saturating.
pub fn watch_tick(elapsed: u64, dt: u64) -> (r: u64)
    ensures
        r == watch_tick_spec(elapsed, dt),
{
    elapsed.saturating_add(dt)
}

} // verus!
