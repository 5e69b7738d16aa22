//! Core logic of an animated hourglass countdown timer.
//!
//! The library keeps a wall-clock countdown, a two-chamber sand-level model,
//! a one-shot flip-animation guard, a click-versus-drag gesture recognizer,
//! a continuous shape-morph interpolator and a color-mode driver mutually
//! consistent frame by frame. All quantities are fixed-point integers:
//! times in whole milliseconds, fractions and geometry in thousandths.

pub mod clock;
pub mod color;
pub mod config;
pub mod engine;
pub mod gesture;
pub mod guard;
pub mod levels;
pub mod morph;
pub mod timefmt;
pub mod ui;
