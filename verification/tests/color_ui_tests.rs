use hourglass_timer::clock::TimerState;
use hourglass_timer::color::{pick_random_color, rainbow_color_at, set_random_color, update_rainbow_color};
use hourglass_timer::config::{
    palette_color, ColorMode, ConfigTracker, HourglassConfig, HourglassShape, Rgb, ShapeMode,
};
use hourglass_timer::timefmt::format_hms;
use hourglass_timer::ui::{button_scale, PauseOverlay, TimerPanelVisible};

#[test]
fn test_rainbow_pure_red_at_zero() {
    // Hue 0: a pure red-dominant sample.
    assert_eq!(rainbow_color_at(0), Rgb::new(1000, 0, 0));
}

#[test]
fn test_rainbow_cyan_at_half_cycle() {
    // Three seconds is half of the six-second cycle: hue 180, cyan.
    assert_eq!(rainbow_color_at(3000), Rgb::new(0, 1000, 1000));
}

#[test]
fn test_rainbow_intermediate_hues() {
    assert_eq!(rainbow_color_at(500), Rgb::new(1000, 500, 0)); // hue 30
    assert_eq!(rainbow_color_at(1000), Rgb::new(1000, 1000, 0)); // hue 60
    assert_eq!(rainbow_color_at(2000), Rgb::new(0, 1000, 0)); // hue 120
    assert_eq!(rainbow_color_at(4000), Rgb::new(0, 0, 1000)); // hue 240
    assert_eq!(rainbow_color_at(5000), Rgb::new(1000, 0, 1000)); // hue 300
}

#[test]
fn test_rainbow_repeats_every_six_seconds() {
    assert_eq!(rainbow_color_at(6000), rainbow_color_at(0));
    assert_eq!(rainbow_color_at(6500), rainbow_color_at(500));
    assert_eq!(rainbow_color_at(123_456), rainbow_color_at(123_456 % 6000));
}

#[test]
fn test_update_rainbow_only_in_rainbow_mode() {
    let mut config = HourglassConfig::default();
    let before = config.color;
    update_rainbow_color(&mut config, 3000);
    assert_eq!(config.color, before); // static mode: no-op

    config.select_rainbow();
    update_rainbow_color(&mut config, 3000);
    assert_eq!(config.color, Rgb::new(0, 1000, 1000));
    assert_eq!(config.color_mode, ColorMode::Rainbow);
}

#[test]
fn test_set_random_color() {
    let mut config = HourglassConfig::default();
    set_random_color(&mut config, 12, 345, 678);
    assert_eq!(config.color, Rgb::new(12, 345, 678));
    assert_eq!(config.color_mode, ColorMode::Random);
    assert_eq!(config.shape_type, HourglassShape::Classic);
}

#[test]
fn test_pick_random_color_stays_in_range() {
    let mut config = HourglassConfig::default();
    pick_random_color(&mut config);
    assert_eq!(config.color_mode, ColorMode::Random);
    assert!(config.color.r <= 1000);
    assert!(config.color.g <= 1000);
    assert!(config.color.b <= 1000);
}

#[test]
fn test_select_color_and_shape() {
    let mut config = HourglassConfig::default();
    config.select_rainbow();
    config.select_color(Rgb::new(100, 300, 800));
    assert_eq!(config.color, Rgb::new(100, 300, 800));
    assert_eq!(config.color_mode, ColorMode::Static);

    config.toggle_shape_mode();
    assert_eq!(config.shape_mode, ShapeMode::Morphing);
    config.select_shape(HourglassShape::Wide);
    assert_eq!(config.shape_type, HourglassShape::Wide);
    assert_eq!(config.shape_mode, ShapeMode::Static); // picking a preset leaves morphing
    config.toggle_shape_mode();
    config.toggle_shape_mode();
    assert_eq!(config.shape_mode, ShapeMode::Static);
}

#[test]
fn test_palette() {
    assert_eq!(palette_color(0), Rgb::new(0, 0, 0));
    assert_eq!(palette_color(1), Rgb::new(1000, 1000, 1000));
    assert_eq!(palette_color(7), Rgb::new(800, 400, 0));
    let default = HourglassConfig::default();
    assert_eq!(default.color, Rgb::new(800, 600, 200));
}

#[test]
fn test_config_tracker() {
    let mut tracker = ConfigTracker::new();
    let mut config = HourglassConfig::default();
    assert!(tracker.needs_apply(&config)); // nothing applied yet
    tracker.mark_applied(&config);
    assert!(!tracker.needs_apply(&config));
    config.select_color(Rgb::new(0, 0, 0));
    assert!(tracker.needs_apply(&config)); // the color changed
    tracker.mark_applied(&config);
    assert!(!tracker.needs_apply(&config));
}

#[test]
fn test_format_hms_values() {
    assert_eq!(format_hms(0), "00:00:00");
    assert_eq!(format_hms(59), "00:00:59");
    assert_eq!(format_hms(61), "00:01:01");
    assert_eq!(format_hms(3600), "01:00:00");
    assert_eq!(format_hms(86_399), "23:59:59");
    assert_eq!(format_hms(359_999), "99:59:59");
}

#[test]
fn test_pause_overlay_visibility() {
    let mut overlay = PauseOverlay::new();
    let mut clock = TimerState::new();

    // Fresh and never started: no overlay.
    overlay.step(&clock);
    assert!(!overlay.visible);

    // Running: no overlay.
    clock.start();
    overlay.step(&clock);
    assert!(!overlay.visible);

    // Paused mid-countdown: overlay shown.
    clock.tick(60_000);
    clock.pause();
    overlay.step(&clock);
    assert!(overlay.visible);

    // Resumed: hidden again.
    clock.start();
    overlay.step(&clock);
    assert!(!overlay.visible);

    // Ran out: stopped with nothing left shows no overlay.
    clock.tick(1_000_000);
    overlay.step(&clock);
    assert!(!overlay.visible);
}

#[test]
fn test_pause_overlay_holds_between_edges() {
    let mut overlay = PauseOverlay::new();
    let mut clock = TimerState::new();
    clock.start();
    clock.tick(60_000);
    clock.pause();
    overlay.step(&clock);
    assert!(overlay.visible);
    // Repeated frames with the flag unchanged keep the overlay as is.
    overlay.step(&clock);
    overlay.step(&clock);
    assert!(overlay.visible);
}

#[test]
fn test_timer_panel_toggle() {
    let mut panel = TimerPanelVisible::default();
    assert!(!panel.0); // starts collapsed
    panel.toggle();
    assert!(panel.0);
    panel.toggle();
    assert!(!panel.0);
}

#[test]
fn test_button_scale() {
    assert_eq!(button_scale(true, false), 1300);
    assert_eq!(button_scale(true, true), 1300); // hover wins
    assert_eq!(button_scale(false, true), 1150);
    assert_eq!(button_scale(false, false), 1000);
}
