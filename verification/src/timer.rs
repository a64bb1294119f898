//! A countdown primitive measuring elapsed time against a fixed duration.
//!
//! Durations and deltas are integer milliseconds. The timer never measures
//! time itself: the frame delta is supplied by the caller, which keeps the
//! unit deterministic. A negative delta is clamped to zero rather than
//! rejected, so a frame loop stays resilient to input jitter.

use vstd::prelude::*;

verus! {

/// A frame delta with a negative value counted as zero.
pub open spec fn pos_delta(delta: i64) -> int {
    if delta <= 0 {
        0
    } else {
        delta as int
    }
}

/// The elapsed time after one tick: the delta is clamped at zero from
/// below, and the sum saturates at the largest representable value.
pub open spec fn ticked(elapsed: u64, delta: i64) -> int {
    if elapsed + pos_delta(delta) <= u64::MAX {
        elapsed + pos_delta(delta)
    } else {
        u64::MAX as int
    }
}

/// A countdown over a fixed duration, in milliseconds.
#[derive(Debug, Clone, Copy)]
pub struct Timer {
    /// Fixed at creation.
    pub duration: u64,
    /// Advanced by `tick`, never decreased except by `reset`.
    pub elapsed: u64,
}

impl Timer {
    /// Creates a timer of `duration` milliseconds with nothing elapsed yet.
    pub fn new(duration: u64) -> (t: Timer)
        ensures
            t.duration == duration,
            t.elapsed == 0,
    {
        Timer { duration, elapsed: 0 }
    }

    /// Creates a timer of `secs` whole seconds.
    pub fn new_sec(secs: u32) -> (t: Timer)
        ensures
            t.duration == secs * 1000,
            t.elapsed == 0,
    {
        Timer { duration: (secs as u64) * 1000, elapsed: 0 }
    }

    /// Adds the frame delta to the elapsed time. A negative delta counts as
    /// zero; the elapsed time saturates at the largest representable value.
    pub fn tick(&mut self, delta: i64)
        ensures
            final(self).duration == old(self).duration,
            final(self).elapsed == ticked(old(self).elapsed, delta),
            final(self).elapsed >= old(self).elapsed,
    {
        if delta > 0 {
            let d = delta as u64;
            if d > u64::MAX - self.elapsed {
                self.elapsed = u64::MAX;
            } else {
                self.elapsed = self.elapsed + d;
            }
        }
    }

    /// True once the elapsed time has reached the duration.
    pub fn finished(&self) -> (r: bool)
        ensures
            r == (self.elapsed >= self.duration),
    {
        self.elapsed >= self.duration
    }

    /// Starts the countdown over, keeping the duration.
    pub fn reset(&mut self)
        ensures
            final(self).duration == old(self).duration,
            final(self).elapsed == 0,
    {
        self.elapsed = 0;
    }
}

} // verus!
