//! The countdown clock: duration, remaining time and a running flag.
//!
//! All inputs are clamped, never rejected. Times are whole milliseconds.

use vstd::prelude::*;

verus! {

/// Milliseconds in one full day, the ceiling for a countdown duration.
pub const MAX_DURATION_MS: u64 = 86_400_000;

/// The duration a freshly created clock counts down from: three minutes.
pub const DEFAULT_DURATION_MS: u64 = 180_000;

/// A wall-clock countdown. `remaining_ms` never exceeds `duration_ms`,
/// and `duration_ms` never exceeds a day.
#[derive(Clone, Copy, Debug, PartialEq, Eq, Structural)]
pub struct TimerState {
    pub duration_ms: u64,
    pub remaining_ms: u64,
    pub is_running: bool,
}

impl TimerState {
    /// The clock's invariant: remaining time within the duration,
    /// duration within a day.
    pub open spec fn wf(self) -> bool {
        self.remaining_ms <= self.duration_ms && self.duration_ms <= MAX_DURATION_MS
    }

    /// A fresh clock: full three minutes, not running.
    pub fn new() -> (r: TimerState)
        ensures
            r.wf(),
            r.duration_ms == DEFAULT_DURATION_MS,
            r.remaining_ms == DEFAULT_DURATION_MS,
            !r.is_running,
    {
        TimerState {
            duration_ms: DEFAULT_DURATION_MS,
            remaining_ms: DEFAULT_DURATION_MS,
            is_running: false,
        }
    }

    /// Advance the countdown by `dt_ms`: a no-op unless running; the
    /// remaining time is clamped at zero, where the clock also stops.
    pub fn tick(&mut self, dt_ms: u64)
        requires
            old(self).wf(),
        ensures
            final(self).wf(),
            *final(self) == spec_tick(*old(self), dt_ms),
    {
        if self.is_running {
            if dt_ms >= self.remaining_ms {
                self.remaining_ms = 0;
                self.is_running = false;
            } else {
                self.remaining_ms = self.remaining_ms - dt_ms;
            }
        }
    }

    /// Start the countdown; idempotent.
    pub fn start(&mut self)
        ensures
            final(self).is_running,
            final(self).duration_ms == old(self).duration_ms,
            final(self).remaining_ms == old(self).remaining_ms,
    {
        self.is_running = true;
    }

    /// Pause the countdown; idempotent.
    pub fn pause(&mut self)
        ensures
            !final(self).is_running,
            final(self).duration_ms == old(self).duration_ms,
            final(self).remaining_ms == old(self).remaining_ms,
    {
        self.is_running = false;
    }

    /// Restore the full duration and stop, whatever the prior state.
    pub fn reset(&mut self)
        ensures
            final(self).remaining_ms == old(self).duration_ms,
            final(self).duration_ms == old(self).duration_ms,
            !final(self).is_running,
    {
        self.remaining_ms = self.duration_ms;
        self.is_running = false;
    }

    /// Shift both duration and remaining time by `delta_ms`, clamping the
    /// duration to `[0, MAX_DURATION_MS]` and the remaining time to
    /// `[0, duration]`. The running flag is untouched.
    pub fn add_time(&mut self, delta_ms: i64)
        requires
            old(self).wf(),
        ensures
            final(self).wf(),
            *final(self) == spec_add_time(*old(self), delta_ms),
    {
        let max: i64 = MAX_DURATION_MS as i64;
        // Clamping the shift itself to one day in either direction cannot
        // change the clamped outcome, and keeps the sums within i64.
        let d: i64 = if delta_ms > max {
            max
        } else if delta_ms < -max {
            -max
        } else {
            delta_ms
        };
        let new_duration: i64 = clamp_i64(self.duration_ms as i64 + d, 0, max);
        let new_remaining: i64 = clamp_i64(self.remaining_ms as i64 + d, 0, new_duration);
        proof {
            assert(new_duration == clamp_int(self.duration_ms + delta_ms, 0, MAX_DURATION_MS as int));
            assert(new_remaining == clamp_int(self.remaining_ms + delta_ms, 0, new_duration as int));
        }
        self.duration_ms = new_duration as u64;
        self.remaining_ms = new_remaining as u64;
    }
}

impl Default for TimerState {
    fn default() -> (r: TimerState)
        ensures
            r.wf(),
            r.duration_ms == DEFAULT_DURATION_MS,
            r.remaining_ms == DEFAULT_DURATION_MS,
            !r.is_running,
    {
        TimerState::new()
    }
}

/// Clamp an integer to a closed interval.
pub open spec fn clamp_int(x: int, lo: int, hi: int) -> int {
    if x < lo {
        lo
    } else if x > hi {
        hi
    } else {
        x
    }
}

fn clamp_i64(x: i64, lo: i64, hi: i64) -> (r: i64)
    requires
        lo <= hi,
    ensures
        r == clamp_int(x as int, lo as int, hi as int),
{
    if x < lo {
        lo
    } else if x > hi {
        hi
    } else {
        x
    }
}

/// What one tick does: subtract while running, clamp at zero and stop there.
pub open spec fn spec_tick(t: TimerState, dt_ms: u64) -> TimerState {
    if t.is_running {
        if dt_ms >= t.remaining_ms {
            TimerState { duration_ms: t.duration_ms, remaining_ms: 0, is_running: false }
        } else {
            TimerState {
                duration_ms: t.duration_ms,
                remaining_ms: (t.remaining_ms - dt_ms) as u64,
                is_running: true,
            }
        }
    } else {
        t
    }
}

/// What a time adjustment does: shift both fields, clamp the duration to a
/// day and the remaining time to the new duration.
pub open spec fn spec_add_time(t: TimerState, delta_ms: i64) -> TimerState {
    let d = clamp_int(t.duration_ms + delta_ms, 0, MAX_DURATION_MS as int);
    let r = clamp_int(t.remaining_ms + delta_ms, 0, d);
    TimerState { duration_ms: d as u64, remaining_ms: r as u64, is_running: t.is_running }
}

/// Adjusting the clock by `delta_ms` and then by `-delta_ms` restores the
/// original duration and remaining time, provided the first step hits
/// neither clamp.
pub proof fn lemma_add_time_round_trip(t: TimerState, delta_ms: i64)
    requires
        t.wf(),
        0 <= t.duration_ms + delta_ms <= MAX_DURATION_MS,
        0 <= t.remaining_ms + delta_ms,
    ensures
        spec_add_time(spec_add_time(t, delta_ms), (-delta_ms) as i64) == t,
{
}

} // verus!
