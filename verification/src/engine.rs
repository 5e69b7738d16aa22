//! The per-frame synchronization engine: one clock tick, one guard pass
//! and one mapper pass, in the order the frame requires, plus the pointer
//! events routed through the gesture recognizer.

use vstd::prelude::*;
use crate::clock::{spec_tick, TimerState, DEFAULT_DURATION_MS};
use crate::gesture::{spec_cleared, spec_up_clock, spec_up_visual, DragState, GestureKind};
use crate::gesture::{spec_past_threshold, COORD_LIMIT};
use crate::guard::{spec_guard_fires, spec_guard_step, FlipGuard, GuardInput};
use crate::levels::{spec_at_rest, spec_sync, HourglassVisualState};

verus! {

/// The cooperating state machines of the timer: countdown clock, flip-once
/// guard, the visual state stamped onto the renderable instance, and the
/// gesture in flight. One value of this struct, advanced once per render
/// tick, keeps them mutually consistent.
#[derive(Clone, Copy, Debug, PartialEq, Eq, Structural)]
pub struct HourglassCore {
    pub clock: TimerState,
    pub guard: FlipGuard,
    pub visual: HourglassVisualState,
    pub drag: DragState,
}

/// What one frame does: tick the clock, run the guard on the ticked clock,
/// then stamp the visual state. Returns the advanced core and whether the
/// guard requests a flip animation this frame.
pub open spec fn spec_frame(c: HourglassCore, dt_ms: u64, can_flip: bool) -> (
    HourglassCore,
    bool,
) {
    let clock2 = spec_tick(c.clock, dt_ms);
    let input = GuardInput {
        running: clock2.is_running,
        remaining_ms: clock2.remaining_ms,
        duration_ms: clock2.duration_ms,
        can_flip,
    };
    let fired = spec_guard_fires(c.guard, input);
    let guard2 = spec_guard_step(c.guard, input);
    let visual2 = spec_sync(c.visual, clock2, guard2.has_ever_started);
    (HourglassCore { clock: clock2, guard: guard2, visual: visual2, drag: c.drag }, fired)
}

impl HourglassCore {
    /// All parts within their invariants.
    pub open spec fn wf(self) -> bool {
        self.clock.wf() && self.visual.wf() && self.drag.wf()
    }

    /// A fresh engine: full default countdown, guard at rest, sand
    /// settled below, no gesture in flight.
    pub fn new() -> (c: HourglassCore)
        ensures
            c.clock == (TimerState {
                duration_ms: DEFAULT_DURATION_MS,
                remaining_ms: DEFAULT_DURATION_MS,
                is_running: false,
            }),
            c.guard == (FlipGuard { has_ever_started: false, last_running: false }),
            c.visual == spec_at_rest(c.clock.duration_ms),
            !c.drag.pressed,
            c.wf(),
    {
        let clock = TimerState::new();
        let duration = clock.duration_ms;
        HourglassCore {
            clock,
            guard: FlipGuard::new(),
            visual: HourglassVisualState::new(duration),
            drag: DragState::new(),
        }
    }

    /// Advance one render tick of `dt_ms`, with the collaborator's
    /// `can_flip` answer for this frame. Returns whether a flip animation
    /// is to be requested of it.
    pub fn frame(&mut self, dt_ms: u64, can_flip: bool) -> (fired: bool)
        requires
            old(self).wf(),
        ensures
            *final(self) == spec_frame(*old(self), dt_ms, can_flip).0,
            fired == spec_frame(*old(self), dt_ms, can_flip).1,
            final(self).wf(),
    {
        self.clock.tick(dt_ms);
        let input = GuardInput {
            running: self.clock.is_running,
            remaining_ms: self.clock.remaining_ms,
            duration_ms: self.clock.duration_ms,
            can_flip,
        };
        let fired = self.guard.step(input);
        crate::levels::sync_visual(&mut self.visual, &self.clock, self.guard.has_ever_started);
        fired
    }

    /// A pointer-down inside the hourglass's hit region.
    pub fn pointer_down(&mut self, x: i64, y: i64)
        requires
            old(self).wf(),
            -COORD_LIMIT <= x <= COORD_LIMIT,
            -COORD_LIMIT <= y <= COORD_LIMIT,
        ensures
            final(self).drag == (DragState {
                pressed: true,
                is_dragging: false,
                start_x: x,
                start_y: y,
                drag_threshold: old(self).drag.drag_threshold,
            }),
            final(self).clock == old(self).clock,
            final(self).guard == old(self).guard,
            final(self).visual == old(self).visual,
            final(self).wf(),
    {
        self.drag.on_pointer_down(x, y);
    }

    /// A pointer-move while pressed, inside the hit region.
    pub fn pointer_move(&mut self, x: i64, y: i64)
        requires
            old(self).wf(),
            -COORD_LIMIT <= x <= COORD_LIMIT,
            -COORD_LIMIT <= y <= COORD_LIMIT,
        ensures
            final(self).drag.is_dragging == (old(self).drag.is_dragging || (old(
                self,
            ).drag.pressed && spec_past_threshold(old(self).drag, x as int, y as int))),
            final(self).drag.pressed == old(self).drag.pressed,
            final(self).drag.start_x == old(self).drag.start_x,
            final(self).drag.start_y == old(self).drag.start_y,
            final(self).drag.drag_threshold == old(self).drag.drag_threshold,
            final(self).clock == old(self).clock,
            final(self).guard == old(self).guard,
            final(self).visual == old(self).visual,
            final(self).wf(),
    {
        self.drag.on_pointer_move(x, y);
    }

    /// A pointer-up inside the hit region: a drag flips and restarts, a
    /// click toggles running, a release without a captured press does
    /// nothing. Returns the recognized gesture and whether a flip
    /// animation is to be requested of the collaborator.
    pub fn pointer_up(&mut self, can_flip: bool) -> (r: (GestureKind, bool))
        requires
            old(self).wf(),
        ensures
            r.0 == old(self).drag.spec_kind(),
            r.1 == (r.0 == GestureKind::Drag && can_flip),
            final(self).drag == spec_cleared(old(self).drag),
            final(self).clock == spec_up_clock(old(self).drag.spec_kind(), old(self).clock),
            final(self).visual == spec_up_visual(old(self).drag.spec_kind(), old(self).visual),
            final(self).guard == old(self).guard,
            final(self).wf(),
    {
        self.drag.on_pointer_up(&mut self.clock, &mut self.visual, can_flip)
    }
}

} // verus!
