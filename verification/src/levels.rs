//! The chamber-level mapper: derives the two sand-fill levels from the
//! clock and the flip state, once per frame.

use vstd::prelude::*;
use crate::clock::TimerState;

verus! {

/// Full chamber: levels are thousandths of a chamber's volume.
pub const LEVEL_SCALE: u32 = 1000;

/// The mutable state of the renderable hourglass instance that this core
/// stamps every frame. Chamber levels are thousandths, `0..=1000`.
#[derive(Clone, Copy, Debug, PartialEq, Eq, Structural)]
pub struct HourglassVisualState {
    pub upper_chamber: u32,
    pub lower_chamber: u32,
    pub flipping: bool,
    pub running: bool,
    pub total_ms: u64,
    pub remaining_ms: u64,
}

impl HourglassVisualState {
    /// Levels within one chamber's volume.
    pub open spec fn wf(self) -> bool {
        self.upper_chamber <= LEVEL_SCALE && self.lower_chamber <= LEVEL_SCALE
    }

    /// At-rest orientation with the given timing: all sand settled below,
    /// as a freshly built, unstarted hourglass shows it.
    pub fn new(duration_ms: u64) -> (v: HourglassVisualState)
        ensures
            v == spec_at_rest(duration_ms),
            v.wf(),
    {
        HourglassVisualState {
            upper_chamber: 0,
            lower_chamber: LEVEL_SCALE,
            flipping: false,
            running: false,
            total_ms: duration_ms,
            remaining_ms: duration_ms,
        }
    }
}

/// The at-rest visual state for a clock at full `duration_ms`.
pub open spec fn spec_at_rest(duration_ms: u64) -> HourglassVisualState {
    HourglassVisualState {
        upper_chamber: 0,
        lower_chamber: LEVEL_SCALE as u32,
        flipping: false,
        running: false,
        total_ms: duration_ms,
        remaining_ms: duration_ms,
    }
}

/// The fraction of time left, in thousandths of the duration (rounded
/// down); a zero duration counts as fully remaining.
pub open spec fn spec_fill_milli(remaining_ms: u64, duration_ms: u64) -> int {
    if duration_ms > 0 {
        remaining_ms * (LEVEL_SCALE as int) / (duration_ms as int)
    } else {
        LEVEL_SCALE as int
    }
}

/// The fraction of time left on `clock`, in thousandths. This is the fill
/// level a rebuilt hourglass is created with.
pub fn fill_fraction_milli(clock: &TimerState) -> (f: u32)
    requires
        clock.wf(),
    ensures
        f == spec_fill_milli(clock.remaining_ms, clock.duration_ms),
        f <= LEVEL_SCALE,
{
    if clock.duration_ms > 0 {
        proof {
            assert(clock.remaining_ms * (LEVEL_SCALE as u64) <= 86_400_000u64 * 1000)
                by (nonlinear_arith)
                requires
                    clock.remaining_ms <= 86_400_000u64,
            ;
        }
        let f64bits: u64 = clock.remaining_ms * (LEVEL_SCALE as u64) / clock.duration_ms;
        proof {
            lemma_fill_bounded(clock.remaining_ms, clock.duration_ms);
        }
        f64bits as u32
    } else {
        LEVEL_SCALE
    }
}

/// With `remaining <= duration`, the fill fraction never exceeds one
/// full chamber.
pub proof fn lemma_fill_bounded(remaining_ms: u64, duration_ms: u64)
    requires
        remaining_ms <= duration_ms,
    ensures
        0 <= spec_fill_milli(remaining_ms, duration_ms) <= LEVEL_SCALE,
{
    if duration_ms > 0 {
        assert(remaining_ms * (LEVEL_SCALE as int) / (duration_ms as int) <= LEVEL_SCALE)
            by (nonlinear_arith)
            requires
                remaining_ms <= duration_ms,
                duration_ms > 0,
        ;
        assert(remaining_ms * (LEVEL_SCALE as int) / (duration_ms as int) >= 0)
            by (nonlinear_arith)
            requires
                duration_ms > 0,
        ;
    }
}

/// What one mapper pass leaves on the instance, given the clock and whether
/// the clock has been started since the last full reset.
pub open spec fn spec_sync(
    v: HourglassVisualState,
    clock: TimerState,
    started: bool,
) -> HourglassVisualState {
    let stamped = HourglassVisualState {
        total_ms: clock.duration_ms,
        remaining_ms: clock.remaining_ms,
        running: clock.is_running,
        ..v
    };
    if v.flipping {
        // The flip animation owns the chamber levels for its whole run.
        stamped
    } else if clock.duration_ms > 0 && (clock.is_running || started) {
        HourglassVisualState {
            upper_chamber: spec_fill_milli(clock.remaining_ms, clock.duration_ms) as u32,
            lower_chamber: (LEVEL_SCALE - spec_fill_milli(
                clock.remaining_ms,
                clock.duration_ms,
            )) as u32,
            ..stamped
        }
    } else if !clock.is_running && clock.remaining_ms >= clock.duration_ms {
        // At rest at full duration: never started, or just reset.
        HourglassVisualState { upper_chamber: 0, lower_chamber: LEVEL_SCALE as u32, ..stamped }
    } else {
        // Paused mid-countdown: freeze the levels, no visible jump.
        stamped
    }
}

/// One mapper pass: stamp the clock's timing onto the instance and derive
/// the chamber levels from it.
///
/// While the instance is flipping, the chamber levels are not written (the
/// animation owns them). While the clock runs, or has been `started` since
/// the last reset, the upper chamber holds the fraction of time left and
/// the lower chamber the rest. A clock at rest at full duration forces the
/// at-rest orientation. A pause mid-countdown freezes the levels.
pub fn sync_visual(v: &mut HourglassVisualState, clock: &TimerState, started: bool)
    requires
        old(v).wf(),
        clock.wf(),
    ensures
        *final(v) == spec_sync(*old(v), *clock, started),
        final(v).wf(),
{
    let flipping = v.flipping;
    v.total_ms = clock.duration_ms;
    v.remaining_ms = clock.remaining_ms;
    v.running = clock.is_running;
    if flipping {
        // Levels untouched.
    } else if clock.duration_ms > 0 && (clock.is_running || started) {
        let fill = fill_fraction_milli(clock);
        v.upper_chamber = fill;
        v.lower_chamber = LEVEL_SCALE - fill;
    } else if !clock.is_running && clock.remaining_ms >= clock.duration_ms {
        v.upper_chamber = 0;
        v.lower_chamber = LEVEL_SCALE;
    }
}

/// Whenever the mapper computes fresh levels (clock running, instance not
/// flipping, positive duration), the two chambers sum to exactly one
/// chamber's volume.
pub proof fn lemma_levels_sum_to_full(
    v: HourglassVisualState,
    clock: TimerState,
    started: bool,
)
    requires
        v.wf(),
        clock.wf(),
        !v.flipping,
        clock.duration_ms > 0,
        clock.is_running || started,
    ensures
        spec_sync(v, clock, started).upper_chamber + spec_sync(v, clock, started).lower_chamber
            == LEVEL_SCALE,
{
    lemma_fill_bounded(clock.remaining_ms, clock.duration_ms);
}

/// The mapper is idempotent: a second pass with the same clock and flag
/// leaves the instance exactly as the first did.
pub proof fn lemma_sync_idempotent(v: HourglassVisualState, clock: TimerState, started: bool)
    requires
        v.wf(),
        clock.wf(),
    ensures
        spec_sync(spec_sync(v, clock, started), clock, started) == spec_sync(v, clock, started),
{
    lemma_fill_bounded(clock.remaining_ms, clock.duration_ms);
}

} // verus!
