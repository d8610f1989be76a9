//! Countdown timers.
//!
//! A `Timer` accumulates elapsed milliseconds up to a duration. A
//! one-shot timer stops there until it is reset; a repeating timer
//! wraps around and completes again. Reload countdowns, blast-bonus
//! expiry and the two spawners are all driven by these.

use vstd::prelude::*;

use crate::consts::{DT_LIMIT, DURATION_LIMIT};

verus! {

/// A millisecond countdown, one-shot or repeating.
#[derive(Clone, Copy, PartialEq, Eq, Structural, Debug)]
pub struct Timer {
    /// Time the countdown runs for (ms).
    pub duration: u64,
    /// Time accumulated so far (ms).
    pub elapsed: u64,
    /// Whether the timer re-arms itself on completion.
    pub repeating: bool,
    /// Whether the countdown has completed. A repeating timer reports
    /// this only on the tick it wraps.
    pub finished: bool,
    /// Whether the countdown completed on the most recent tick.
    pub just_finished: bool,
}

/// The timer after one tick of `dt` milliseconds.
pub open spec fn timer_tick_spec(t: Timer, dt: u64) -> Timer {
    let total = t.elapsed + dt;
    if total >= t.duration {
        if t.repeating {
            Timer {
                elapsed: (total % (t.duration as int)) as u64,
                finished: true,
                just_finished: true,
                ..t
            }
        } else {
            Timer {
                elapsed: t.duration,
                finished: true,
                just_finished: t.elapsed < t.duration,
                ..t
            }
        }
    } else {
        Timer { elapsed: total as u64, finished: false, just_finished: false, ..t }
    }
}

impl Timer {
    /// The invariant every live timer satisfies.
    pub open spec fn wf(self) -> bool {
        &&& 0 < self.duration <= DURATION_LIMIT
        &&& self.elapsed <= self.duration
        &&& (self.repeating ==> self.elapsed < self.duration)
        &&& (!self.repeating ==> (self.finished <==> self.elapsed == self.duration))
        &&& (self.just_finished ==> self.finished)
    }

    /// A fresh timer with nothing elapsed.
    pub fn new(duration: u64, repeating: bool) -> (t: Timer)
        requires
            0 < duration <= DURATION_LIMIT,
        ensures
            t == (Timer { duration, elapsed: 0, repeating, finished: false, just_finished: false }),
            t.wf(),
    {
        Timer { duration, elapsed: 0, repeating, finished: false, just_finished: false }
    }

    /// Accumulates `dt` milliseconds, completing and (for a repeating
    /// timer) wrapping as the duration is reached.
    pub fn tick(&mut self, dt: u64)
        requires
            old(self).wf(),
            dt <= DT_LIMIT,
        ensures
            *final(self) == timer_tick_spec(*old(self), dt),
            final(self).wf(),
    {
        let total = self.elapsed + dt;
        if total >= self.duration {
            if self.repeating {
                self.elapsed = total % self.duration;
                self.finished = true;
                self.just_finished = true;
            } else {
                self.just_finished = self.elapsed < self.duration;
                self.elapsed = self.duration;
                self.finished = true;
            }
        } else {
            self.elapsed = total;
            self.finished = false;
            self.just_finished = false;
        }
    }

    /// Starts the countdown over.
    pub fn reset(&mut self)
        ensures
            *final(self) == (Timer {
                elapsed: 0,
                finished: false,
                just_finished: false,
                ..*old(self)
            }),
            old(self).wf() ==> final(self).wf(),
    {
        self.elapsed = 0;
        self.finished = false;
        self.just_finished = false;
    }

    /// How far the countdown has run, in thousandths of the duration.
    pub fn progress_permille(&self) -> (r: u64)
        requires
            self.wf(),
        ensures
            r == self.elapsed * 1000 / (self.duration as int),
            r <= 1000,
    {
        let r = self.elapsed * 1000 / self.duration;
        proof {
            vstd::arithmetic::div_mod::lemma_div_is_ordered(
                self.elapsed * 1000,
                self.duration * 1000,
                self.duration as int,
            );
            vstd::arithmetic::div_mod::lemma_div_by_multiple(1000, self.duration as int);
        }
        r
    }
}

} // verus!
