//! Countdown / repeating timers measured in whole milliseconds.
//!
//! Every time-gated feature of the game — attack duration, encounter dwell
//! time, bullet lifetime, platform patrol cadence — owns one of these and
//! ticks it with the frame delta.  A non-repeating timer runs to its duration
//! and stays finished; a repeating timer wraps around and reports a
//! completion on every tick that crosses its duration.

use vstd::prelude::*;

verus! {

/// A timer with millisecond resolution.
///
/// `just_finished` records whether the most recent [`GameTimer::tick`]
/// crossed the duration.  For a repeating timer the elapsed time wraps
/// modulo the duration on completion; for a one-shot timer it is capped at
/// the duration.
#[derive(Debug, Clone, Copy)]
pub struct GameTimer {
    pub duration_ms: u32,
    pub elapsed_ms: u32,
    pub repeating: bool,
    pub just_finished: bool,
}

/// Well-formedness: a positive duration, elapsed time within it, and a
/// repeating timer always strictly inside its period (it wraps on
/// completion).
pub open spec fn timer_wf(t: GameTimer) -> bool {
    &&& 1 <= t.duration_ms
    &&& t.elapsed_ms <= t.duration_ms
    &&& t.repeating ==> t.elapsed_ms < t.duration_ms
}

/// The timer state after advancing `t` by `delta_ms` milliseconds.
pub open spec fn spec_tick(t: GameTimer, delta_ms: u32) -> GameTimer {
    let total = t.elapsed_ms + delta_ms;
    if total >= t.duration_ms {
        if t.repeating {
            GameTimer {
                duration_ms: t.duration_ms,
                elapsed_ms: (total % (t.duration_ms as int)) as u32,
                repeating: t.repeating,
                just_finished: true,
            }
        } else {
            GameTimer {
                duration_ms: t.duration_ms,
                elapsed_ms: t.duration_ms,
                repeating: t.repeating,
                just_finished: t.elapsed_ms < t.duration_ms,
            }
        }
    } else {
        GameTimer {
            duration_ms: t.duration_ms,
            elapsed_ms: total as u32,
            repeating: t.repeating,
            just_finished: false,
        }
    }
}

/// Whether the timer currently reports itself finished: a one-shot timer
/// once its elapsed time has reached the duration, a repeating timer on
/// exactly the ticks that completed a period.
pub open spec fn spec_finished(t: GameTimer) -> bool {
    if t.repeating {
        t.just_finished
    } else {
        t.elapsed_ms >= t.duration_ms
    }
}

impl GameTimer {
    /// A fresh timer with the given period.
    pub fn from_millis(duration_ms: u32, repeating: bool) -> (r: GameTimer)
        requires
            1 <= duration_ms,
        ensures
            r == (GameTimer { duration_ms, elapsed_ms: 0, repeating, just_finished: false }),
    {
        GameTimer { duration_ms, elapsed_ms: 0, repeating, just_finished: false }
    }

    /// Advance the timer by `delta_ms` milliseconds.
    pub fn tick(&mut self, delta_ms: u32)
        requires
            timer_wf(*old(self)),
        ensures
            *final(self) == spec_tick(*old(self), delta_ms),
            timer_wf(*final(self)),
    {
        let total: u64 = self.elapsed_ms as u64 + delta_ms as u64;
        if total >= self.duration_ms as u64 {
            if self.repeating {
                self.elapsed_ms = (total % self.duration_ms as u64) as u32;
                self.just_finished = true;
            } else {
                self.just_finished = self.elapsed_ms < self.duration_ms;
                self.elapsed_ms = self.duration_ms;
            }
        } else {
            self.elapsed_ms = total as u32;
            self.just_finished = false;
        }
    }

    /// See [`spec_finished`].
    pub fn finished(&self) -> (r: bool)
        ensures
            r == spec_finished(*self),
    {
        if self.repeating {
            self.just_finished
        } else {
            self.elapsed_ms >= self.duration_ms
        }
    }

    /// Whether the most recent tick completed the timer.
    pub fn just_finished(&self) -> (r: bool)
        ensures
            r == self.just_finished,
    {
        self.just_finished
    }

    /// Rewind the timer to the start of its period.
    pub fn reset(&mut self)
        ensures
            *final(self) == (GameTimer {
                duration_ms: old(self).duration_ms,
                elapsed_ms: 0,
                repeating: old(self).repeating,
                just_finished: false,
            }),
    {
        self.elapsed_ms = 0;
        self.just_finished = false;
    }
}

} // verus!
