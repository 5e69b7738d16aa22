use hourglass_timer::clock::{TimerState, DEFAULT_DURATION_MS, MAX_DURATION_MS};

#[test]
fn test_fresh_clock() {
    let t = TimerState::new();
    assert_eq!(t.duration_ms, 180_000);
    assert_eq!(t.duration_ms, DEFAULT_DURATION_MS);
    assert_eq!(t.remaining_ms, 180_000);
    assert!(!t.is_running);
    assert_eq!(t, TimerState::default());
}

#[test]
fn test_tick_counts_down_only_while_running() {
    let mut t = TimerState::new();
    t.tick(5_000);
    assert_eq!(t.remaining_ms, 180_000); // not running: no-op
    t.start();
    t.tick(5_000);
    assert_eq!(t.remaining_ms, 175_000);
    assert!(t.is_running);
    t.pause();
    t.tick(5_000);
    assert_eq!(t.remaining_ms, 175_000); // paused: frozen
}

#[test]
fn test_tick_clamps_to_zero_and_stops() {
    let mut t = TimerState::new();
    t.start();
    t.tick(179_999);
    assert_eq!(t.remaining_ms, 1);
    assert!(t.is_running);
    t.tick(10_000);
    assert_eq!(t.remaining_ms, 0);
    assert!(!t.is_running);
    // Ticking a stopped clock at zero changes nothing.
    t.tick(1_000);
    assert_eq!(t.remaining_ms, 0);
    assert!(!t.is_running);
}

#[test]
fn test_reset_restores_duration_and_stops() {
    let mut t = TimerState::new();
    t.start();
    t.tick(42_000);
    t.reset();
    assert_eq!(t.remaining_ms, t.duration_ms);
    assert!(!t.is_running);

    // From a running, partly drained, shifted state as well.
    let mut t = TimerState::new();
    t.start();
    t.tick(100_000);
    t.add_time(30_000);
    t.reset();
    assert_eq!(t.remaining_ms, t.duration_ms);
    assert_eq!(t.duration_ms, 210_000);
    assert!(!t.is_running);
}

#[test]
fn test_add_time_shifts_both_fields() {
    let mut t = TimerState::new();
    t.start();
    t.tick(90_000); // 90s left of 180s
    t.add_time(60_000);
    assert_eq!(t.duration_ms, 240_000);
    assert_eq!(t.remaining_ms, 150_000);
    assert!(t.is_running);
}

#[test]
fn test_add_time_round_trip() {
    // Adding and removing a minute restores the original state when no
    // clamp is hit at either step.
    let mut t = TimerState::new();
    t.start();
    t.tick(90_000);
    let before = t;
    t.add_time(60_000);
    t.add_time(-60_000);
    assert_eq!(t, before);
}

#[test]
fn test_add_time_clamps_low() {
    let mut t = TimerState::new();
    t.add_time(-200_000); // more than the whole duration
    assert_eq!(t.duration_ms, 0);
    assert_eq!(t.remaining_ms, 0);
}

#[test]
fn test_add_time_clamps_remaining_to_duration() {
    let mut t = TimerState::new();
    t.start();
    t.tick(100_000); // remaining 80_000
    t.add_time(-100_000); // duration 80_000, remaining would be -20_000
    assert_eq!(t.duration_ms, 80_000);
    assert_eq!(t.remaining_ms, 0);
}

#[test]
fn test_add_time_clamps_to_one_day() {
    let mut t = TimerState::new();
    t.add_time(i64::MAX);
    assert_eq!(t.duration_ms, MAX_DURATION_MS);
    assert_eq!(t.remaining_ms, MAX_DURATION_MS);
    t.add_time(i64::MIN);
    assert_eq!(t.duration_ms, 0);
    assert_eq!(t.remaining_ms, 0);
}

#[test]
fn test_format_time() {
    let t = TimerState::new();
    assert_eq!(t.format_time(), "00:03:00");

    let mut t = TimerState::new();
    t.add_time(MAX_DURATION_MS as i64); // clamp at one day
    assert_eq!(t.format_time(), "24:00:00");

    let mut t = TimerState::new();
    t.add_time(-180_000 + 3_661_000); // 3661 seconds
    assert_eq!(t.format_time(), "01:01:01");

    let mut t = TimerState::new();
    t.start();
    t.tick(179_500); // 500 ms left: truncates toward zero
    assert_eq!(t.format_time(), "00:00:00");
}
