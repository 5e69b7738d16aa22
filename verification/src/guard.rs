//! The flip-once guard: requests the flip animation exactly on a genuine
//! first start of the countdown, never on a resume from pause, and re-arms
//! only when the clock is back at rest at full duration.

use vstd::prelude::*;

verus! {

/// Edge-detection state for the one-shot flip on first start.
///
/// `has_ever_started` records that a start was seen (and a flip granted)
/// since the last full reset; `last_running` is the running flag of the
/// previous frame, for detecting the stopped-to-running edge.
#[derive(Clone, Copy, Debug, PartialEq, Eq, Structural)]
pub struct FlipGuard {
    pub has_ever_started: bool,
    pub last_running: bool,
}

/// What one frame observes of the clock, as the guard needs it.
#[derive(Clone, Copy, Debug, PartialEq, Eq, Structural)]
pub struct GuardInput {
    pub running: bool,
    pub remaining_ms: u64,
    pub duration_ms: u64,
    pub can_flip: bool,
}

impl GuardInput {
    /// The clock is at rest at full duration: never started or just reset.
    pub open spec fn at_rest(self) -> bool {
        self.remaining_ms >= self.duration_ms && !self.running
    }
}

/// The flip fires exactly on a stopped-to-running edge while no start has
/// been recorded since the last reset, and only if the collaborator can
/// accept it (`can_flip`); a refused request is dropped and retried on the
/// next qualifying edge.
pub open spec fn spec_guard_fires(g: FlipGuard, i: GuardInput) -> bool {
    i.running && !g.last_running && !g.has_ever_started && i.can_flip
}

/// The guard after one frame: a granted flip records the start; a clock
/// back at rest at full duration re-arms the guard.
pub open spec fn spec_guard_step(g: FlipGuard, i: GuardInput) -> FlipGuard {
    FlipGuard {
        has_ever_started: if i.at_rest() {
            false
        } else {
            g.has_ever_started || spec_guard_fires(g, i)
        },
        last_running: i.running,
    }
}

impl FlipGuard {
    /// A fresh guard: at rest, nothing recorded.
    pub fn new() -> (g: FlipGuard)
        ensures
            !g.has_ever_started,
            !g.last_running,
    {
        FlipGuard { has_ever_started: false, last_running: false }
    }

    /// Observe one frame of the clock. Returns whether a flip animation is
    /// to be requested this frame.
    pub fn step(&mut self, input: GuardInput) -> (fired: bool)
        ensures
            fired == spec_guard_fires(*old(self), input),
            *final(self) == spec_guard_step(*old(self), input),
    {
        let mut fired = false;
        if input.running && !self.last_running {
            if !self.has_ever_started {
                if input.can_flip {
                    fired = true;
                    self.has_ever_started = true;
                }
            }
            // A resume from pause continues without a flip.
        }
        if input.remaining_ms >= input.duration_ms && !input.running {
            self.has_ever_started = false;
        }
        self.last_running = input.running;
        fired
    }
}

/// Run the guard over a whole sequence of frames, counting granted flips.
pub open spec fn spec_guard_run(g: FlipGuard, inputs: Seq<GuardInput>) -> (FlipGuard, nat)
    decreases inputs.len(),
{
    if inputs.len() == 0 {
        (g, 0nat)
    } else {
        let fired: nat = if spec_guard_fires(g, inputs[0]) {
            1nat
        } else {
            0nat
        };
        let (g2, rest) = spec_guard_run(spec_guard_step(g, inputs[0]), inputs.skip(1));
        (g2, fired + rest)
    }
}

/// Once a start is recorded, no frame fires again until the clock returns
/// to rest at full duration: over any run of frames none of which is at
/// rest, a guard that has started grants zero flips.
pub proof fn lemma_started_grants_none(g: FlipGuard, inputs: Seq<GuardInput>)
    requires
        g.has_ever_started,
        forall|k: int| 0 <= k < inputs.len() ==> !inputs[k].at_rest(),
    ensures
        spec_guard_run(g, inputs).1 == 0,
    decreases inputs.len(),
{
    if inputs.len() > 0 {
        assert(!inputs[0].at_rest());
        lemma_started_grants_none(spec_guard_step(g, inputs[0]), inputs.skip(1));
    }
}

/// One reset cycle grants at most one flip: over any run of frames none of
/// which is at rest at full duration, the guard fires at most once, however
/// often the clock toggles between running and paused.
pub proof fn lemma_flip_at_most_once_per_cycle(g: FlipGuard, inputs: Seq<GuardInput>)
    requires
        forall|k: int| 0 <= k < inputs.len() ==> !inputs[k].at_rest(),
    ensures
        spec_guard_run(g, inputs).1 <= 1,
    decreases inputs.len(),
{
    if inputs.len() > 0 {
        let g2 = spec_guard_step(g, inputs[0]);
        assert(!inputs[0].at_rest());
        if spec_guard_fires(g, inputs[0]) {
            assert(g2.has_ever_started);
            lemma_started_grants_none(g2, inputs.skip(1));
        } else {
            lemma_flip_at_most_once_per_cycle(g2, inputs.skip(1));
        }
    }
}

/// A resume from pause is continuation only: with a start already recorded,
/// a stopped-to-running edge grants no flip.
pub proof fn lemma_resume_never_flips(g: FlipGuard, i: GuardInput)
    requires
        g.has_ever_started,
    ensures
        !spec_guard_fires(g, i),
{
}

} // verus!
