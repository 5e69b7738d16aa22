use hourglass_timer::engine::HourglassCore;
use hourglass_timer::gesture::GestureKind;
use hourglass_timer::levels::LEVEL_SCALE;

fn click(core: &mut HourglassCore) {
    core.pointer_down(0, 0);
    let (kind, flip) = core.pointer_up(true);
    assert_eq!(kind, GestureKind::Click);
    assert!(!flip);
}

#[test]
fn test_end_to_end_scenario() {
    // Fresh engine: 180 s, stopped, sand settled below.
    let mut core = HourglassCore::new();
    assert_eq!(core.clock.duration_ms, 180_000);
    assert_eq!(core.clock.remaining_ms, 180_000);
    assert!(!core.clock.is_running);

    // Click: the countdown starts and the next frame's guard pass
    // requests exactly one flip; the guard has now recorded the start.
    click(&mut core);
    assert!(core.clock.is_running);
    let fired = core.frame(0, true);
    assert!(fired);
    assert!(core.guard.has_ever_started);

    // 90 simulated seconds of ticking, one frame per second.
    let mut flips = 0u32;
    for _ in 0..90 {
        if core.frame(1000, true) {
            flips += 1;
        }
    }
    assert_eq!(flips, 0);
    assert_eq!(core.clock.remaining_ms, 90_000);
    assert_eq!(core.visual.upper_chamber, 500);
    assert_eq!(core.visual.lower_chamber, 500);

    // Click to pause: the chamber levels stay at the half-way mark.
    click(&mut core);
    assert!(!core.clock.is_running);
    assert!(!core.frame(1000, true));
    assert_eq!(core.clock.remaining_ms, 90_000);
    assert_eq!(core.visual.upper_chamber, 500);
    assert_eq!(core.visual.lower_chamber, 500);

    // Click to resume: no new flip, ticking continues from 90 s.
    click(&mut core);
    assert!(core.clock.is_running);
    assert!(!core.frame(0, true));
    assert!(!core.frame(1000, true));
    assert_eq!(core.clock.remaining_ms, 89_000);

    // Drag: flip requested again, countdown reset to the full 180 s and
    // restarted, chambers forced to the at-rest orientation at once.
    core.pointer_down(0, 0);
    core.pointer_move(50, 0);
    let (kind, flip) = core.pointer_up(true);
    assert_eq!(kind, GestureKind::Drag);
    assert!(flip);
    assert_eq!(core.clock.remaining_ms, 180_000);
    assert!(core.clock.is_running);
    assert_eq!(core.visual.upper_chamber, 0);
    assert_eq!(core.visual.lower_chamber, LEVEL_SCALE);

    // The guard saw the clock running throughout the drag: the next
    // frame requests no second flip.
    assert!(!core.frame(0, true));
}

#[test]
fn test_engine_countdown_finishes() {
    let mut core = HourglassCore::new();
    click(&mut core);
    assert!(core.frame(0, true));
    for _ in 0..200 {
        core.frame(1000, true);
    }
    assert_eq!(core.clock.remaining_ms, 0);
    assert!(!core.clock.is_running);
    // All sand has fallen.
    assert_eq!(core.visual.upper_chamber, 0);
    assert_eq!(core.visual.lower_chamber, LEVEL_SCALE);
}

#[test]
fn test_engine_flip_refused_then_granted() {
    // The collaborator refuses the first flip; the guard retries on the
    // next stopped-to-running edge.
    let mut core = HourglassCore::new();
    click(&mut core);
    assert!(!core.frame(0, false)); // refused and dropped
    assert!(!core.guard.has_ever_started);
    click(&mut core); // pause
    assert!(!core.frame(0, true)); // the guard sees the clock stopped
    click(&mut core); // resume: a new qualifying edge
    assert!(core.frame(0, true));
    assert!(core.guard.has_ever_started);
}

#[test]
fn test_engine_reset_rearms_guard() {
    let mut core = HourglassCore::new();
    click(&mut core);
    assert!(core.frame(0, true));
    core.frame(30_000, true);
    // An explicit reset returns the clock to rest at full duration.
    core.clock.reset();
    core.frame(0, true);
    assert!(!core.guard.has_ever_started);
    assert_eq!(core.visual.upper_chamber, 0);
    assert_eq!(core.visual.lower_chamber, LEVEL_SCALE);
    // The next start flips again.
    click(&mut core);
    assert!(core.frame(0, true));
}
