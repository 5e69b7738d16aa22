//! The color mode driver: a static palette pick, a one-shot random sample,
//! or a rainbow hue cycled continuously from elapsed wall time.

use rand::Rng;
use vstd::prelude::*;
use vstd::arithmetic::div_mod::lemma_truncate_middle;
use crate::config::{ColorMode, HourglassConfig, Rgb, CHANNEL_MAX};

verus! {

/// Millidegrees in a full hue circle.
pub const HUE_FULL_MILLIDEG: u64 = 360_000;

/// The rainbow completes one hue rotation every six seconds
/// (sixty degrees per second).
pub const RAINBOW_PERIOD_MS: u64 = 6000;

/// The rainbow hue at an instant, in millidegrees.
pub open spec fn spec_rainbow_hue(elapsed_ms: u64) -> int {
    (elapsed_ms * 60) % (HUE_FULL_MILLIDEG as int)
}

/// The secondary channel of the piecewise hue-to-RGB conversion, rising
/// and falling linearly within each sixty-degree sector.
pub open spec fn spec_hue_ramp(hue: int) -> int {
    let d = hue % 120_000 - 60_000;
    1000 - (if d < 0 {
        -d
    } else {
        d
    }) / 60
}

/// Hue to RGB at full saturation and half lightness: the standard
/// six-sector conversion, with the chroma channel fully on.
pub open spec fn spec_rainbow_rgb(hue: int) -> Rgb {
    let x = spec_hue_ramp(hue) as u16;
    if hue < 60_000 {
        Rgb { r: 1000, g: x, b: 0 }
    } else if hue < 120_000 {
        Rgb { r: x, g: 1000, b: 0 }
    } else if hue < 180_000 {
        Rgb { r: 0, g: 1000, b: x }
    } else if hue < 240_000 {
        Rgb { r: 0, g: x, b: 1000 }
    } else if hue < 300_000 {
        Rgb { r: x, g: 0, b: 1000 }
    } else {
        Rgb { r: 1000, g: 0, b: x }
    }
}

/// The rainbow color at an instant.
pub open spec fn spec_rainbow_at(elapsed_ms: u64) -> Rgb {
    spec_rainbow_rgb(spec_rainbow_hue(elapsed_ms))
}

/// The rainbow color for the given elapsed wall time.
pub fn rainbow_color_at(elapsed_ms: u64) -> (c: Rgb)
    ensures
        c == spec_rainbow_at(elapsed_ms),
        c.wf(),
{
    let hue: u64 = (elapsed_ms % RAINBOW_PERIOD_MS) * 60;
    proof {
        lemma_truncate_middle(elapsed_ms as int, 60, RAINBOW_PERIOD_MS as int);
        assert(hue == spec_rainbow_hue(elapsed_ms));
    }
    let within = hue % 120_000;
    let x: u64 = if within >= 60_000 {
        1000 - (within - 60_000) / 60
    } else {
        1000 - (60_000 - within) / 60
    };
    proof {
        assert(x == spec_hue_ramp(hue as int));
    }
    let x16 = x as u16;
    if hue < 60_000 {
        Rgb { r: 1000, g: x16, b: 0 }
    } else if hue < 120_000 {
        Rgb { r: x16, g: 1000, b: 0 }
    } else if hue < 180_000 {
        Rgb { r: 0, g: 1000, b: x16 }
    } else if hue < 240_000 {
        Rgb { r: 0, g: x16, b: 1000 }
    } else if hue < 300_000 {
        Rgb { r: x16, g: 0, b: 1000 }
    } else {
        Rgb { r: 1000, g: 0, b: x16 }
    }
}

/// One frame of the color driver: in rainbow mode the color follows the
/// elapsed wall time; in the other modes the frame is a no-op.
pub fn update_rainbow_color(config: &mut HourglassConfig, elapsed_ms: u64)
    ensures
        final(config).color == (if old(config).color_mode == ColorMode::Rainbow {
            spec_rainbow_at(elapsed_ms)
        } else {
            old(config).color
        }),
        final(config).color_mode == old(config).color_mode,
        final(config).shape_type == old(config).shape_type,
        final(config).shape_mode == old(config).shape_mode,
{
    if config.color_mode == ColorMode::Rainbow {
        config.color = rainbow_color_at(elapsed_ms);
    }
}

/// Relies on `rand::Rng::gen_range` on `rand::thread_rng()`: a sample from
/// the non-empty range `0..=1000` lies within it.
#[verifier::external_body]
fn random_channel() -> (r: u16)
    ensures
        r <= CHANNEL_MAX,
{
    rand::thread_rng().gen_range(0..=1000)
}

/// Adopt a freshly sampled color and switch to random mode; the shape
/// settings are untouched. This is the whole effect of the random-color
/// button, for any sample whatever.
pub fn set_random_color(config: &mut HourglassConfig, r: u16, g: u16, b: u16)
    requires
        r <= CHANNEL_MAX,
        g <= CHANNEL_MAX,
        b <= CHANNEL_MAX,
    ensures
        final(config).color == (Rgb { r, g, b }),
        final(config).color_mode == ColorMode::Random,
        final(config).shape_type == old(config).shape_type,
        final(config).shape_mode == old(config).shape_mode,
        final(config).wf(),
{
    config.color = Rgb { r, g, b };
    config.color_mode = ColorMode::Random;
}

/// Take one uniform random sample per channel and adopt it: the color is
/// fixed from here until the mode is re-triggered. Which color comes out
/// is up to the sampler; every outcome is a valid color and random mode.
pub fn pick_random_color(config: &mut HourglassConfig)
    ensures
        final(config).color_mode == ColorMode::Random,
        final(config).shape_type == old(config).shape_type,
        final(config).shape_mode == old(config).shape_mode,
        final(config).wf(),
{
    let r = random_channel();
    let g = random_channel();
    let b = random_channel();
    set_random_color(config, r, g, b);
}

} // verus!
