//! Frame-driven UI decisions: the pause overlay's visibility, the
//! collapsible timer panel, and the scale feedback of the selector
//! buttons. The widgets themselves live outside the library.

use vstd::prelude::*;
use crate::clock::TimerState;

verus! {

/// When the pause overlay is due: the countdown stands paused mid-way —
/// stopped, some time left, and already started (so a freshly reset or a
/// finished timer shows no overlay).
pub open spec fn spec_overlay_visible(c: TimerState) -> bool {
    !c.is_running && c.remaining_ms > 0 && c.remaining_ms < c.duration_ms
}

/// The pause overlay: recomputed only when the running flag changes
/// (edge detection across frames), held steady otherwise.
#[derive(Clone, Copy, Debug, PartialEq, Eq, Structural)]
pub struct PauseOverlay {
    /// The running flag last acted on, or nothing before the first frame.
    pub last_running: Option<bool>,
    pub visible: bool,
}

impl PauseOverlay {
    /// Hidden, no frame seen yet.
    pub fn new() -> (o: PauseOverlay)
        ensures
            o.last_running is None,
            !o.visible,
    {
        PauseOverlay { last_running: None, visible: false }
    }

    /// One frame: on the first frame, and whenever the running flag
    /// differs from the last one acted on, recompute the visibility;
    /// otherwise leave it.
    pub fn step(&mut self, clock: &TimerState)
        ensures
            final(self).visible == (if old(self).last_running != Some(clock.is_running) {
                spec_overlay_visible(*clock)
            } else {
                old(self).visible
            }),
            final(self).last_running == (if old(self).last_running != Some(clock.is_running) {
                Some(clock.is_running)
            } else {
                old(self).last_running
            }),
    {
        let changed = match self.last_running {
            Option::None => true,
            Option::Some(last) => last != clock.is_running,
        };
        if changed {
            self.visible = !clock.is_running && clock.remaining_ms > 0 && clock.remaining_ms
                < clock.duration_ms;
            self.last_running = Some(clock.is_running);
        }
    }
}

/// Whether the collapsible timer-controls panel is open. Starts collapsed.
#[derive(Clone, Copy, Debug, PartialEq, Eq, Structural)]
pub struct TimerPanelVisible(pub bool);

impl TimerPanelVisible {
    pub fn toggle(&mut self)
        ensures
            final(self).0 == !old(self).0,
    {
        self.0 = !self.0;
    }
}

impl Default for TimerPanelVisible {
    fn default() -> (v: TimerPanelVisible)
        ensures
            !v.0,
    {
        TimerPanelVisible(false)
    }
}

/// The display scale of a selector button, in thousandths: enlarged under
/// the pointer, slightly enlarged when it is the current selection, plain
/// otherwise.
pub fn button_scale(hovered: bool, selected: bool) -> (s: u32)
    ensures
        s == (if hovered {
            1300u32
        } else if selected {
            1150u32
        } else {
            1000u32
        }),
{
    if hovered {
        1300
    } else if selected {
        1150
    } else {
        1000
    }
}

} // verus!
