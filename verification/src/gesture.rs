//! The flip gesture recognizer: tells a click from a drag by comparing the
//! pointer's displacement against a fixed threshold between press and
//! release, and carries out the resulting timer action.

use vstd::prelude::*;
use crate::clock::TimerState;
use crate::levels::{HourglassVisualState, LEVEL_SCALE};

verus! {

/// Coordinates are display units; they and the drag threshold stay within
/// this bound so that squared distances fit the arithmetic.
pub const COORD_LIMIT: i64 = 1_000_000_000;

/// How far the pointer must travel, in display units, before a press
/// counts as a drag rather than a click.
pub const DRAG_THRESHOLD: u64 = 10;

/// One gesture in flight: created per pointer-down, consumed per
/// pointer-up, never persisted across gestures.
#[derive(Clone, Copy, Debug, PartialEq, Eq, Structural)]
pub struct DragState {
    /// A pointer-down was captured inside the hit region and not yet
    /// released.
    pub pressed: bool,
    /// The pointer has moved past the threshold since the press.
    pub is_dragging: bool,
    pub start_x: i64,
    pub start_y: i64,
    pub drag_threshold: u64,
}

/// What a pointer release amounts to.
#[derive(Clone, Copy, Debug, PartialEq, Eq, Structural)]
pub enum GestureKind {
    /// No pointer-down was captured; nothing fires.
    Ignored,
    /// Press and release without crossing the threshold: toggle the clock.
    Click,
    /// The pointer crossed the threshold: flip and restart.
    Drag,
}

/// The squared planar distance between two points.
pub open spec fn spec_dist_sq(ax: int, ay: int, bx: int, by: int) -> int {
    (ax - bx) * (ax - bx) + (ay - by) * (ay - by)
}

/// Absolute difference of two bounded coordinates.
fn abs_diff(a: i64, b: i64) -> (d: u64)
    requires
        -COORD_LIMIT <= a <= COORD_LIMIT,
        -COORD_LIMIT <= b <= COORD_LIMIT,
    ensures
        d == (if a >= b {
            a - b
        } else {
            b - a
        }),
        d <= 2 * COORD_LIMIT,
{
    if a >= b {
        (a - b) as u64
    } else {
        (b - a) as u64
    }
}

/// The squared distance between two bounded points.
pub fn dist_sq(ax: i64, ay: i64, bx: i64, by: i64) -> (d: u64)
    requires
        -COORD_LIMIT <= ax <= COORD_LIMIT,
        -COORD_LIMIT <= ay <= COORD_LIMIT,
        -COORD_LIMIT <= bx <= COORD_LIMIT,
        -COORD_LIMIT <= by <= COORD_LIMIT,
    ensures
        d == spec_dist_sq(ax as int, ay as int, bx as int, by as int),
{
    let dx = abs_diff(ax, bx);
    let dy = abs_diff(ay, by);
    proof {
        assert(dx * dx == (ax - bx) * (ax - bx) && dx * dx <= 4_000_000_000_000_000_000)
            by (nonlinear_arith)
            requires
                dx == (if ax >= bx {
                    ax - bx
                } else {
                    bx - ax
                }),
                dx <= 2_000_000_000,
        ;
        assert(dy * dy == (ay - by) * (ay - by) && dy * dy <= 4_000_000_000_000_000_000)
            by (nonlinear_arith)
            requires
                dy == (if ay >= by {
                    ay - by
                } else {
                    by - ay
                }),
                dy <= 2_000_000_000,
        ;
    }
    dx * dx + dy * dy
}

/// Whether a point lies strictly within `radius` of a center: the hit
/// region of the hourglass (or of a panel button) on screen.
pub fn in_hit_region(px: i64, py: i64, cx: i64, cy: i64, radius: u64) -> (hit: bool)
    requires
        -COORD_LIMIT <= px <= COORD_LIMIT,
        -COORD_LIMIT <= py <= COORD_LIMIT,
        -COORD_LIMIT <= cx <= COORD_LIMIT,
        -COORD_LIMIT <= cy <= COORD_LIMIT,
        radius <= COORD_LIMIT,
    ensures
        hit == (spec_dist_sq(px as int, py as int, cx as int, cy as int) < radius * radius),
{
    let d = dist_sq(px, py, cx, cy);
    proof {
        assert(radius * radius <= 1_000_000_000_000_000_000) by (nonlinear_arith)
            requires
                radius <= 1_000_000_000,
        ;
    }
    d < radius * radius
}

/// A displacement counts as a drag when its distance strictly exceeds the
/// threshold.
pub open spec fn spec_past_threshold(ds: DragState, x: int, y: int) -> bool {
    spec_dist_sq(x, y, ds.start_x as int, ds.start_y as int) > ds.drag_threshold
        * ds.drag_threshold
}

impl DragState {
    /// Coordinates and threshold bounded.
    pub open spec fn wf(self) -> bool {
        &&& -COORD_LIMIT <= self.start_x <= COORD_LIMIT
        &&& -COORD_LIMIT <= self.start_y <= COORD_LIMIT
        &&& self.drag_threshold <= COORD_LIMIT as u64
    }

    /// A quiet recognizer with the fixed threshold.
    pub fn new() -> (ds: DragState)
        ensures
            !ds.pressed,
            !ds.is_dragging,
            ds.start_x == 0 && ds.start_y == 0,
            ds.drag_threshold == DRAG_THRESHOLD,
            ds.wf(),
    {
        DragState {
            pressed: false,
            is_dragging: false,
            start_x: 0,
            start_y: 0,
            drag_threshold: DRAG_THRESHOLD,
        }
    }

    /// A pointer-down inside the hit region: record the start position and
    /// begin a fresh, not-yet-dragging gesture.
    pub fn on_pointer_down(&mut self, x: i64, y: i64)
        requires
            old(self).wf(),
            -COORD_LIMIT <= x <= COORD_LIMIT,
            -COORD_LIMIT <= y <= COORD_LIMIT,
        ensures
            *final(self) == (DragState {
                pressed: true,
                is_dragging: false,
                start_x: x,
                start_y: y,
                drag_threshold: old(self).drag_threshold,
            }),
            final(self).wf(),
    {
        self.pressed = true;
        self.is_dragging = false;
        self.start_x = x;
        self.start_y = y;
    }

    /// A pointer-move while pressed: once the displacement from the start
    /// exceeds the threshold, the gesture becomes a drag and stays one.
    pub fn on_pointer_move(&mut self, x: i64, y: i64)
        requires
            old(self).wf(),
            -COORD_LIMIT <= x <= COORD_LIMIT,
            -COORD_LIMIT <= y <= COORD_LIMIT,
        ensures
            final(self).is_dragging == (old(self).is_dragging || (old(self).pressed
                && spec_past_threshold(*old(self), x as int, y as int))),
            final(self).pressed == old(self).pressed,
            final(self).start_x == old(self).start_x,
            final(self).start_y == old(self).start_y,
            final(self).drag_threshold == old(self).drag_threshold,
            final(self).wf(),
    {
        if self.pressed && !self.is_dragging {
            let d = dist_sq(x, y, self.start_x, self.start_y);
            proof {
                assert(self.drag_threshold * self.drag_threshold
                    <= 1_000_000_000_000_000_000) by (nonlinear_arith)
                    requires
                        self.drag_threshold <= 1_000_000_000,
                ;
            }
            if d > self.drag_threshold * self.drag_threshold {
                self.is_dragging = true;
            }
        }
    }

    /// What the captured gesture will be on release.
    pub open spec fn spec_kind(self) -> GestureKind {
        if !self.pressed {
            GestureKind::Ignored
        } else if self.is_dragging {
            GestureKind::Drag
        } else {
            GestureKind::Click
        }
    }

    /// A pointer-up inside the hit region: a drag flips and restarts the
    /// countdown, a plain click toggles it between running and paused, and
    /// a release without a captured press fires nothing. The gesture state
    /// is cleared either way.
    ///
    /// On a drag, the chamber levels are forced to the at-rest orientation
    /// at once (pre-empting the mapper for this frame), a flip animation is
    /// requested if the collaborator accepts one, and the clock is reset
    /// and started.
    pub fn on_pointer_up(
        &mut self,
        clock: &mut TimerState,
        visual: &mut HourglassVisualState,
        can_flip: bool,
    ) -> (r: (GestureKind, bool))
        requires
            old(self).wf(),
            old(clock).wf(),
            old(visual).wf(),
        ensures
            r.0 == old(self).spec_kind(),
            r.1 == (r.0 == GestureKind::Drag && can_flip),
            *final(self) == spec_cleared(*old(self)),
            *final(clock) == spec_up_clock(old(self).spec_kind(), *old(clock)),
            *final(visual) == spec_up_visual(old(self).spec_kind(), *old(visual)),
            final(self).wf(),
            final(clock).wf(),
            final(visual).wf(),
    {
        let kind = if !self.pressed {
            GestureKind::Ignored
        } else if self.is_dragging {
            GestureKind::Drag
        } else {
            GestureKind::Click
        };
        let mut flip_requested = false;
        match kind {
            GestureKind::Ignored => {},
            GestureKind::Drag => {
                // The reset must be visually instantaneous.
                visual.upper_chamber = 0;
                visual.lower_chamber = LEVEL_SCALE;
                if can_flip {
                    flip_requested = true;
                }
                clock.reset();
                clock.start();
            },
            GestureKind::Click => {
                if clock.is_running {
                    clock.pause();
                } else {
                    clock.start();
                }
            },
        }
        self.pressed = false;
        self.is_dragging = false;
        self.start_x = 0;
        self.start_y = 0;
        (kind, flip_requested)
    }
}

/// The recognizer after any release: quiet, position zeroed, threshold
/// kept.
pub open spec fn spec_cleared(ds: DragState) -> DragState {
    DragState {
        pressed: false,
        is_dragging: false,
        start_x: 0,
        start_y: 0,
        drag_threshold: ds.drag_threshold,
    }
}

/// The clock after a release: a drag resets to full duration and starts;
/// a click toggles running; an ignored release changes nothing.
pub open spec fn spec_up_clock(kind: GestureKind, c: TimerState) -> TimerState {
    match kind {
        GestureKind::Ignored => c,
        GestureKind::Drag => TimerState {
            duration_ms: c.duration_ms,
            remaining_ms: c.duration_ms,
            is_running: true,
        },
        GestureKind::Click => TimerState { is_running: !c.is_running, ..c },
    }
}

/// The instance after a release: a drag forces the at-rest chamber levels;
/// anything else leaves it alone.
pub open spec fn spec_up_visual(
    kind: GestureKind,
    v: HourglassVisualState,
) -> HourglassVisualState {
    match kind {
        GestureKind::Drag => HourglassVisualState {
            upper_chamber: 0,
            lower_chamber: LEVEL_SCALE as u32,
            ..v
        },
        _ => v,
    }
}

} // verus!
