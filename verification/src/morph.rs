//! Silhouette presets and the continuous shape-morph interpolator.
//!
//! All lengths and curvatures are thousandths of a display unit; curve
//! resolutions are plain segment counts. The morph cycles through the four
//! presets over a fixed period, linearly blending every numeric field and
//! treating a straight neck as a curved neck of curvature zero where the
//! two endpoint families differ.

use vstd::prelude::*;
use crate::clock::TimerState;
use crate::config::{HourglassConfig, HourglassShape, ShapeMode};
use crate::levels::fill_fraction_milli;
use crate::levels::spec_fill_milli;

verus! {

/// Ceiling for every geometric parameter, in thousandths.
pub const PARAM_LIMIT: u64 = 1_000_000;

/// One full pass through all four presets takes eight seconds.
pub const MORPH_CYCLE_MS: u64 = 8000;

/// The cycle divides into four equal segments, one per preset pair.
pub const MORPH_SEGMENT_MS: u64 = 2000;

/// Geometry rebuilds are throttled to at most one per this interval.
pub const MORPH_MIN_INTERVAL_MS: u64 = 10;

/// Fewest curve segments a blended bulb may be left with.
pub const MIN_BULB_RESOLUTION: u64 = 5;

/// Fewest curve segments a blended curved neck may be left with.
pub const MIN_NECK_RESOLUTION: u64 = 3;

/// A bulb silhouette. All presets share the circular family; a pair of
/// heterogeneous bulb families would have to switch discretely at the
/// half-way point of a segment instead of blending.
#[derive(Clone, Copy, Debug, PartialEq, Eq, Structural)]
pub struct BulbStyle {
    pub curvature: u64,
    pub width_factor: u64,
    pub curve_resolution: u64,
}

/// A neck silhouette: straight walls, or a curved profile with its own
/// tessellation resolution.
#[derive(Clone, Copy, Debug, PartialEq, Eq, Structural)]
pub enum NeckStyle {
    Straight { width: u64, height: u64 },
    Curved { curvature: u64, width: u64, height: u64, curve_resolution: u64 },
}

/// The body of an hourglass: overall height, bulb and neck silhouettes.
#[derive(Clone, Copy, Debug, PartialEq, Eq, Structural)]
pub struct BodyConfig {
    pub total_height: u64,
    pub bulb_style: BulbStyle,
    pub neck_style: NeckStyle,
}

/// The two end plates.
#[derive(Clone, Copy, Debug, PartialEq, Eq, Structural)]
pub struct PlatesConfig {
    pub width: u64,
    pub height: u64,
}

impl BulbStyle {
    pub open spec fn wf(self) -> bool {
        self.curvature <= PARAM_LIMIT && self.width_factor <= PARAM_LIMIT
            && self.curve_resolution <= PARAM_LIMIT
    }
}

impl NeckStyle {
    pub open spec fn wf(self) -> bool {
        match self {
            NeckStyle::Straight { width, height } => width <= PARAM_LIMIT && height
                <= PARAM_LIMIT,
            NeckStyle::Curved { curvature, width, height, curve_resolution } => curvature
                <= PARAM_LIMIT && width <= PARAM_LIMIT && height <= PARAM_LIMIT
                && curve_resolution <= PARAM_LIMIT,
        }
    }
}

impl BodyConfig {
    pub open spec fn wf(self) -> bool {
        self.total_height <= PARAM_LIMIT && self.bulb_style.wf() && self.neck_style.wf()
    }
}

impl PlatesConfig {
    pub open spec fn wf(self) -> bool {
        self.width <= PARAM_LIMIT && self.height <= PARAM_LIMIT
    }
}

/// The full-size preset table: body and plates for each named shape.
pub open spec fn spec_main_preset(shape: HourglassShape) -> (BodyConfig, PlatesConfig) {
    match shape {
        HourglassShape::Classic => (
            BodyConfig {
                total_height: 400_000,
                bulb_style: BulbStyle { curvature: 1000, width_factor: 1000, curve_resolution: 20 },
                neck_style: NeckStyle::Curved {
                    curvature: 1000,
                    width: 14_000,
                    height: 20_000,
                    curve_resolution: 10,
                },
            },
            PlatesConfig { width: 400_000, height: 10_000 },
        ),
        HourglassShape::Modern => (
            BodyConfig {
                total_height: 400_000,
                bulb_style: BulbStyle { curvature: 0, width_factor: 1000, curve_resolution: 10 },
                neck_style: NeckStyle::Straight { width: 12_000, height: 32_000 },
            },
            PlatesConfig { width: 380_000, height: 12_000 },
        ),
        HourglassShape::Slim => (
            BodyConfig {
                total_height: 480_000,
                bulb_style: BulbStyle { curvature: 1500, width_factor: 700, curve_resolution: 18 },
                neck_style: NeckStyle::Curved {
                    curvature: 1500,
                    width: 12_000,
                    height: 24_000,
                    curve_resolution: 8,
                },
            },
            PlatesConfig { width: 340_000, height: 8_000 },
        ),
        HourglassShape::Wide => (
            BodyConfig {
                total_height: 320_000,
                bulb_style: BulbStyle { curvature: 1000, width_factor: 1200, curve_resolution: 24 },
                neck_style: NeckStyle::Curved {
                    curvature: 700,
                    width: 20_000,
                    height: 16_000,
                    curve_resolution: 12,
                },
            },
            PlatesConfig { width: 390_000, height: 14_000 },
        ),
    }
}

/// The miniature preset table used by the shape selector row.
pub open spec fn spec_mini_preset(shape: HourglassShape) -> (BodyConfig, PlatesConfig) {
    match shape {
        HourglassShape::Classic => (
            BodyConfig {
                total_height: 25_000,
                bulb_style: BulbStyle { curvature: 1000, width_factor: 1000, curve_resolution: 10 },
                neck_style: NeckStyle::Curved {
                    curvature: 1000,
                    width: 3000,
                    height: 4000,
                    curve_resolution: 5,
                },
            },
            PlatesConfig { width: 25_000, height: 2000 },
        ),
        HourglassShape::Modern => (
            BodyConfig {
                total_height: 25_000,
                bulb_style: BulbStyle { curvature: 0, width_factor: 1000, curve_resolution: 5 },
                neck_style: NeckStyle::Straight { width: 2500, height: 6000 },
            },
            PlatesConfig { width: 22_000, height: 2500 },
        ),
        HourglassShape::Slim => (
            BodyConfig {
                total_height: 30_000,
                bulb_style: BulbStyle { curvature: 1500, width_factor: 700, curve_resolution: 8 },
                neck_style: NeckStyle::Curved {
                    curvature: 1500,
                    width: 2000,
                    height: 5000,
                    curve_resolution: 4,
                },
            },
            PlatesConfig { width: 20_000, height: 1500 },
        ),
        HourglassShape::Wide => (
            BodyConfig {
                total_height: 20_000,
                bulb_style: BulbStyle { curvature: 1000, width_factor: 1200, curve_resolution: 10 },
                neck_style: NeckStyle::Curved {
                    curvature: 700,
                    width: 4000,
                    height: 3000,
                    curve_resolution: 6,
                },
            },
            PlatesConfig { width: 28_000, height: 3000 },
        ),
    }
}

/// The full-size body and plate configuration for a named shape.
pub fn get_main_shape_config(shape: HourglassShape) -> (r: (BodyConfig, PlatesConfig))
    ensures
        r == spec_main_preset(shape),
        r.0.wf(),
        r.1.wf(),
{
    match shape {
        HourglassShape::Classic => (
            BodyConfig {
                total_height: 400_000,
                bulb_style: BulbStyle { curvature: 1000, width_factor: 1000, curve_resolution: 20 },
                neck_style: NeckStyle::Curved {
                    curvature: 1000,
                    width: 14_000,
                    height: 20_000,
                    curve_resolution: 10,
                },
            },
            PlatesConfig { width: 400_000, height: 10_000 },
        ),
        HourglassShape::Modern => (
            BodyConfig {
                total_height: 400_000,
                bulb_style: BulbStyle { curvature: 0, width_factor: 1000, curve_resolution: 10 },
                neck_style: NeckStyle::Straight { width: 12_000, height: 32_000 },
            },
            PlatesConfig { width: 380_000, height: 12_000 },
        ),
        HourglassShape::Slim => (
            BodyConfig {
                total_height: 480_000,
                bulb_style: BulbStyle { curvature: 1500, width_factor: 700, curve_resolution: 18 },
                neck_style: NeckStyle::Curved {
                    curvature: 1500,
                    width: 12_000,
                    height: 24_000,
                    curve_resolution: 8,
                },
            },
            PlatesConfig { width: 340_000, height: 8_000 },
        ),
        HourglassShape::Wide => (
            BodyConfig {
                total_height: 320_000,
                bulb_style: BulbStyle { curvature: 1000, width_factor: 1200, curve_resolution: 24 },
                neck_style: NeckStyle::Curved {
                    curvature: 700,
                    width: 20_000,
                    height: 16_000,
                    curve_resolution: 12,
                },
            },
            PlatesConfig { width: 390_000, height: 14_000 },
        ),
    }
}

/// The miniature body and plate configuration for a named shape, as the
/// selector row shows it.
pub fn get_mini_shape_config(shape: HourglassShape) -> (r: (BodyConfig, PlatesConfig))
    ensures
        r == spec_mini_preset(shape),
        r.0.wf(),
        r.1.wf(),
{
    match shape {
        HourglassShape::Classic => (
            BodyConfig {
                total_height: 25_000,
                bulb_style: BulbStyle { curvature: 1000, width_factor: 1000, curve_resolution: 10 },
                neck_style: NeckStyle::Curved {
                    curvature: 1000,
                    width: 3000,
                    height: 4000,
                    curve_resolution: 5,
                },
            },
            PlatesConfig { width: 25_000, height: 2000 },
        ),
        HourglassShape::Modern => (
            BodyConfig {
                total_height: 25_000,
                bulb_style: BulbStyle { curvature: 0, width_factor: 1000, curve_resolution: 5 },
                neck_style: NeckStyle::Straight { width: 2500, height: 6000 },
            },
            PlatesConfig { width: 22_000, height: 2500 },
        ),
        HourglassShape::Slim => (
            BodyConfig {
                total_height: 30_000,
                bulb_style: BulbStyle { curvature: 1500, width_factor: 700, curve_resolution: 8 },
                neck_style: NeckStyle::Curved {
                    curvature: 1500,
                    width: 2000,
                    height: 5000,
                    curve_resolution: 4,
                },
            },
            PlatesConfig { width: 20_000, height: 1500 },
        ),
        HourglassShape::Wide => (
            BodyConfig {
                total_height: 20_000,
                bulb_style: BulbStyle { curvature: 1000, width_factor: 1200, curve_resolution: 10 },
                neck_style: NeckStyle::Curved {
                    curvature: 700,
                    width: 4000,
                    height: 3000,
                    curve_resolution: 6,
                },
            },
            PlatesConfig { width: 28_000, height: 3000 },
        ),
    }
}

/// Linear blend of `a` toward `b` at `t` thousandths, rounded down.
pub open spec fn spec_lerp_milli(a: int, b: int, t: int) -> int {
    (a * (1000 - t) + b * t) / 1000
}

/// The blend stays within the endpoints' range.
pub proof fn lemma_lerp_within(a: int, b: int, t: int)
    requires
        0 <= t <= 1000,
        0 <= a,
        0 <= b,
    ensures
        spec_lerp_milli(a, b, t) >= (if a <= b {
            a
        } else {
            b
        }),
        spec_lerp_milli(a, b, t) <= (if a <= b {
            b
        } else {
            a
        }),
        spec_lerp_milli(a, b, 0) == a,
        spec_lerp_milli(a, b, 1000) == b,
{
    let lo = if a <= b {
        a
    } else {
        b
    };
    let hi = if a <= b {
        b
    } else {
        a
    };
    assert(lo * 1000 <= a * (1000 - t) + b * t <= hi * 1000) by (nonlinear_arith)
        requires
            0 <= t <= 1000,
            lo <= a <= hi,
            lo <= b <= hi,
    ;
    assert(lo <= (a * (1000 - t) + b * t) / 1000 <= hi) by (nonlinear_arith)
        requires
            lo * 1000 <= a * (1000 - t) + b * t <= hi * 1000,
    ;
    assert((a * 1000 + b * 0) / 1000 == a) by (nonlinear_arith);
    assert((a * 0 + b * 1000) / 1000 == b) by (nonlinear_arith);
}

/// Linear blend of two bounded parameters at `t` thousandths.
pub fn lerp_milli(a: u64, b: u64, t: u64) -> (r: u64)
    requires
        t <= 1000,
        a <= PARAM_LIMIT,
        b <= PARAM_LIMIT,
    ensures
        r == spec_lerp_milli(a as int, b as int, t as int),
        r <= PARAM_LIMIT,
{
    proof {
        assert(a * (1000 - t) + b * t <= PARAM_LIMIT * 1000) by (nonlinear_arith)
            requires
                t <= 1000,
                a <= PARAM_LIMIT,
                b <= PARAM_LIMIT,
        ;
        lemma_lerp_within(a as int, b as int, t as int);
    }
    (a * (1000 - t) + b * t) / 1000
}

/// Blend of a tessellation resolution: linear, rounded down, then clamped
/// up to the family's floor so the geometry cannot degenerate.
pub open spec fn spec_lerp_resolution(a: int, b: int, t: int, floor: int) -> int {
    if spec_lerp_milli(a, b, t) < floor {
        floor
    } else {
        spec_lerp_milli(a, b, t)
    }
}

pub fn lerp_resolution(a: u64, b: u64, t: u64, floor: u64) -> (r: u64)
    requires
        t <= 1000,
        a <= PARAM_LIMIT,
        b <= PARAM_LIMIT,
        floor <= PARAM_LIMIT,
    ensures
        r == spec_lerp_resolution(a as int, b as int, t as int, floor as int),
        r <= PARAM_LIMIT,
{
    let blended = lerp_milli(a, b, t);
    if blended < floor {
        floor
    } else {
        blended
    }
}

/// Blend of two bulb silhouettes (one shared family).
pub open spec fn spec_interp_bulb(a: BulbStyle, b: BulbStyle, t: int) -> BulbStyle {
    BulbStyle {
        curvature: spec_lerp_milli(a.curvature as int, b.curvature as int, t) as u64,
        width_factor: spec_lerp_milli(a.width_factor as int, b.width_factor as int, t) as u64,
        curve_resolution: spec_lerp_resolution(
            a.curve_resolution as int,
            b.curve_resolution as int,
            t,
            MIN_BULB_RESOLUTION as int,
        ) as u64,
    }
}

pub fn interpolate_bulb_style(a: &BulbStyle, b: &BulbStyle, t: u64) -> (r: BulbStyle)
    requires
        t <= 1000,
        a.wf(),
        b.wf(),
    ensures
        r == spec_interp_bulb(*a, *b, t as int),
        r.wf(),
{
    BulbStyle {
        curvature: lerp_milli(a.curvature, b.curvature, t),
        width_factor: lerp_milli(a.width_factor, b.width_factor, t),
        curve_resolution: lerp_resolution(
            a.curve_resolution,
            b.curve_resolution,
            t,
            MIN_BULB_RESOLUTION,
        ),
    }
}

/// Blend of two neck silhouettes. Matching families blend field by field;
/// a straight neck paired with a curved one is treated as a curved neck of
/// curvature zero, so the result is always curved, keeping the curved
/// endpoint's tessellation resolution.
pub open spec fn spec_interp_neck(a: NeckStyle, b: NeckStyle, t: int) -> NeckStyle {
    match (a, b) {
        (
            NeckStyle::Curved { curvature: c1, width: w1, height: h1, curve_resolution: r1 },
            NeckStyle::Curved { curvature: c2, width: w2, height: h2, curve_resolution: r2 },
        ) => NeckStyle::Curved {
            curvature: spec_lerp_milli(c1 as int, c2 as int, t) as u64,
            width: spec_lerp_milli(w1 as int, w2 as int, t) as u64,
            height: spec_lerp_milli(h1 as int, h2 as int, t) as u64,
            curve_resolution: spec_lerp_resolution(
                r1 as int,
                r2 as int,
                t,
                MIN_NECK_RESOLUTION as int,
            ) as u64,
        },
        (
            NeckStyle::Straight { width: w1, height: h1 },
            NeckStyle::Straight { width: w2, height: h2 },
        ) => NeckStyle::Straight {
            width: spec_lerp_milli(w1 as int, w2 as int, t) as u64,
            height: spec_lerp_milli(h1 as int, h2 as int, t) as u64,
        },
        (
            NeckStyle::Straight { width: w1, height: h1 },
            NeckStyle::Curved { curvature: c2, width: w2, height: h2, curve_resolution: r2 },
        ) => NeckStyle::Curved {
            curvature: spec_lerp_milli(0, c2 as int, t) as u64,
            width: spec_lerp_milli(w1 as int, w2 as int, t) as u64,
            height: spec_lerp_milli(h1 as int, h2 as int, t) as u64,
            curve_resolution: r2,
        },
        (
            NeckStyle::Curved { curvature: c1, width: w1, height: h1, curve_resolution: r1 },
            NeckStyle::Straight { width: w2, height: h2 },
        ) => NeckStyle::Curved {
            curvature: spec_lerp_milli(c1 as int, 0, t) as u64,
            width: spec_lerp_milli(w1 as int, w2 as int, t) as u64,
            height: spec_lerp_milli(h1 as int, h2 as int, t) as u64,
            curve_resolution: r1,
        },
    }
}

pub fn interpolate_neck_style(a: &NeckStyle, b: &NeckStyle, t: u64) -> (r: NeckStyle)
    requires
        t <= 1000,
        a.wf(),
        b.wf(),
    ensures
        r == spec_interp_neck(*a, *b, t as int),
        r.wf(),
{
    match (a, b) {
        (
            NeckStyle::Curved { curvature: c1, width: w1, height: h1, curve_resolution: r1 },
            NeckStyle::Curved { curvature: c2, width: w2, height: h2, curve_resolution: r2 },
        ) => NeckStyle::Curved {
            curvature: lerp_milli(*c1, *c2, t),
            width: lerp_milli(*w1, *w2, t),
            height: lerp_milli(*h1, *h2, t),
            curve_resolution: lerp_resolution(*r1, *r2, t, MIN_NECK_RESOLUTION),
        },
        (
            NeckStyle::Straight { width: w1, height: h1 },
            NeckStyle::Straight { width: w2, height: h2 },
        ) => NeckStyle::Straight {
            width: lerp_milli(*w1, *w2, t),
            height: lerp_milli(*h1, *h2, t),
        },
        (
            NeckStyle::Straight { width: w1, height: h1 },
            NeckStyle::Curved { curvature: c2, width: w2, height: h2, curve_resolution: r2 },
        ) => NeckStyle::Curved {
            curvature: lerp_milli(0, *c2, t),
            width: lerp_milli(*w1, *w2, t),
            height: lerp_milli(*h1, *h2, t),
            curve_resolution: *r2,
        },
        (
            NeckStyle::Curved { curvature: c1, width: w1, height: h1, curve_resolution: r1 },
            NeckStyle::Straight { width: w2, height: h2 },
        ) => NeckStyle::Curved {
            curvature: lerp_milli(*c1, 0, t),
            width: lerp_milli(*w1, *w2, t),
            height: lerp_milli(*h1, *h2, t),
            curve_resolution: *r1,
        },
    }
}

/// The ordered cycle the morph walks through, wrapping at the end.
pub open spec fn spec_morph_order(i: int) -> HourglassShape {
    if i == 0 {
        HourglassShape::Classic
    } else if i == 1 {
        HourglassShape::Modern
    } else if i == 2 {
        HourglassShape::Slim
    } else {
        HourglassShape::Wide
    }
}

/// The blended body and plates between cycle position `seg` and its
/// successor, at `t` thousandths into the segment.
pub open spec fn spec_interp_at(seg: int, t: int) -> (BodyConfig, PlatesConfig) {
    let (body_a, plates_a) = spec_main_preset(spec_morph_order(seg));
    let (body_b, plates_b) = spec_main_preset(spec_morph_order((seg + 1) % 4));
    (
        BodyConfig {
            total_height: spec_lerp_milli(
                body_a.total_height as int,
                body_b.total_height as int,
                t,
            ) as u64,
            bulb_style: spec_interp_bulb(body_a.bulb_style, body_b.bulb_style, t),
            neck_style: spec_interp_neck(body_a.neck_style, body_b.neck_style, t),
        },
        PlatesConfig {
            width: spec_lerp_milli(plates_a.width as int, plates_b.width as int, t) as u64,
            height: spec_lerp_milli(plates_a.height as int, plates_b.height as int, t) as u64,
        },
    )
}

/// Where in the cycle a wall-clock instant falls: the segment index and the
/// position within it, in thousandths.
pub open spec fn spec_morph_cursor(elapsed_ms: u64) -> (int, int) {
    let phase = (elapsed_ms as int) % (MORPH_CYCLE_MS as int);
    (phase / (MORPH_SEGMENT_MS as int), (phase % (MORPH_SEGMENT_MS as int)) / 2)
}

/// The morphed geometry at a wall-clock instant.
pub open spec fn spec_morphed_config(elapsed_ms: u64) -> (BodyConfig, PlatesConfig) {
    spec_interp_at(spec_morph_cursor(elapsed_ms).0, spec_morph_cursor(elapsed_ms).1)
}

/// The morphed full-size geometry for the given elapsed wall time.
#[verifier::rlimit(50)]
pub fn get_morphed_shape_config(elapsed_ms: u64) -> (r: (BodyConfig, PlatesConfig))
    ensures
        r == spec_morphed_config(elapsed_ms),
        r.0.wf(),
        r.1.wf(),
{
    let phase = elapsed_ms % MORPH_CYCLE_MS;
    let seg = phase / MORPH_SEGMENT_MS;
    let local_t = (phase % MORPH_SEGMENT_MS) / 2;
    proof {
        assert(seg == spec_morph_cursor(elapsed_ms).0);
        assert(local_t == spec_morph_cursor(elapsed_ms).1);
        assert(0 <= seg < 4);
        assert(local_t <= 1000);
    }
    let shape_a = match seg {
        0 => HourglassShape::Classic,
        1 => HourglassShape::Modern,
        2 => HourglassShape::Slim,
        _ => HourglassShape::Wide,
    };
    let shape_b = match seg {
        0 => HourglassShape::Modern,
        1 => HourglassShape::Slim,
        2 => HourglassShape::Wide,
        _ => HourglassShape::Classic,
    };
    proof {
        assert(shape_a == spec_morph_order(seg as int));
        assert(shape_b == spec_morph_order((seg as int + 1) % 4));
    }
    let (body_a, plates_a) = get_main_shape_config(shape_a);
    let (body_b, plates_b) = get_main_shape_config(shape_b);
    (
        BodyConfig {
            total_height: lerp_milli(body_a.total_height, body_b.total_height, local_t),
            bulb_style: interpolate_bulb_style(&body_a.bulb_style, &body_b.bulb_style, local_t),
            neck_style: interpolate_neck_style(&body_a.neck_style, &body_b.neck_style, local_t),
        },
        PlatesConfig {
            width: lerp_milli(plates_a.width, plates_b.width, local_t),
            height: lerp_milli(plates_a.height, plates_b.height, local_t),
        },
    )
}

/// Blending necks never loses the curved family: whenever either endpoint
/// is curved, the blend is curved, whatever the position in the segment.
pub proof fn lemma_neck_blend_keeps_curved(a: NeckStyle, b: NeckStyle, t: int)
    requires
        a is Curved || b is Curved,
    ensures
        spec_interp_neck(a, b, t) is Curved,
{
}

/// Whether two neck silhouettes trace the same profile, tessellation
/// resolution aside.
pub open spec fn spec_neck_same_profile(a: NeckStyle, b: NeckStyle) -> bool {
    match (a, b) {
        (
            NeckStyle::Curved { curvature: c1, width: w1, height: h1, .. },
            NeckStyle::Curved { curvature: c2, width: w2, height: h2, .. },
        ) => c1 == c2 && w1 == w2 && h1 == h2,
        (
            NeckStyle::Straight { width: w1, height: h1 },
            NeckStyle::Straight { width: w2, height: h2 },
        ) => w1 == w2 && h1 == h2,
        _ => false,
    }
}

/// The morph is continuous at every segment boundary: the blend at the very
/// end of one segment equals the blend at the start of the next in every
/// geometric field — total height, plates, bulb, and the neck's profile.
/// Only the neck's tessellation resolution may step where the two segments
/// join at a change of neck family, the documented discrete switch.
pub proof fn lemma_morph_boundary_continuity(seg: int)
    requires
        0 <= seg < 4,
    ensures
        spec_interp_at(seg, 1000).0.total_height == spec_interp_at((seg + 1) % 4, 0).0.total_height,
        spec_interp_at(seg, 1000).0.bulb_style == spec_interp_at((seg + 1) % 4, 0).0.bulb_style,
        spec_neck_same_profile(
            spec_interp_at(seg, 1000).0.neck_style,
            spec_interp_at((seg + 1) % 4, 0).0.neck_style,
        ),
        spec_interp_at(seg, 1000).1 == spec_interp_at((seg + 1) % 4, 0).1,
{
    assert(spec_interp_at(0, 1000).0.total_height == spec_interp_at(1, 0).0.total_height
        && spec_interp_at(0, 1000).0.bulb_style == spec_interp_at(1, 0).0.bulb_style
        && spec_neck_same_profile(
        spec_interp_at(0, 1000).0.neck_style,
        spec_interp_at(1, 0).0.neck_style,
    ) && spec_interp_at(0, 1000).1 == spec_interp_at(1, 0).1);
    assert(spec_interp_at(1, 1000).0.total_height == spec_interp_at(2, 0).0.total_height
        && spec_interp_at(1, 1000).0.bulb_style == spec_interp_at(2, 0).0.bulb_style
        && spec_neck_same_profile(
        spec_interp_at(1, 1000).0.neck_style,
        spec_interp_at(2, 0).0.neck_style,
    ) && spec_interp_at(1, 1000).1 == spec_interp_at(2, 0).1);
    assert(spec_interp_at(2, 1000).0.total_height == spec_interp_at(3, 0).0.total_height
        && spec_interp_at(2, 1000).0.bulb_style == spec_interp_at(3, 0).0.bulb_style
        && spec_neck_same_profile(
        spec_interp_at(2, 1000).0.neck_style,
        spec_interp_at(3, 0).0.neck_style,
    ) && spec_interp_at(2, 1000).1 == spec_interp_at(3, 0).1);
    assert(spec_interp_at(3, 1000).0.total_height == spec_interp_at(0, 0).0.total_height
        && spec_interp_at(3, 1000).0.bulb_style == spec_interp_at(0, 0).0.bulb_style
        && spec_neck_same_profile(
        spec_interp_at(3, 1000).0.neck_style,
        spec_interp_at(0, 0).0.neck_style,
    ) && spec_interp_at(3, 1000).1 == spec_interp_at(0, 0).1);
}

/// Everything a geometry rebuild needs: the blended body and plates, and
/// the fill level derived from the live clock (never from the discarded
/// instance). The caller carries the in-flight drag gesture over unchanged.
#[derive(Clone, Copy, Debug, PartialEq, Eq, Structural)]
pub struct RebuildConfig {
    pub body: BodyConfig,
    pub plates: PlatesConfig,
    pub fill_milli: u32,
}

/// The throttle state of the morph driver: when it last rebuilt.
#[derive(Clone, Copy, Debug, PartialEq, Eq, Structural)]
pub struct MorphTicker {
    pub last_update_ms: u64,
}

/// Whether a morph tick at `elapsed_ms` passes the throttle.
pub open spec fn spec_morph_due(ticker: MorphTicker, elapsed_ms: u64) -> bool {
    elapsed_ms >= ticker.last_update_ms + MORPH_MIN_INTERVAL_MS
}

impl MorphTicker {
    pub fn new() -> (m: MorphTicker)
        ensures
            m.last_update_ms == 0,
    {
        MorphTicker { last_update_ms: 0 }
    }

    /// One morph tick. Only in morphing mode, and at most once per minimum
    /// interval, does the driver consider a rebuild; a tick that passes the
    /// throttle counts as an update even when the flip animation then
    /// suppresses the rebuild (the animation must not be interrupted).
    /// A granted rebuild carries the blended geometry for `elapsed_ms` and
    /// the fill level read from the live clock.
    pub fn step(
        &mut self,
        shape_mode: ShapeMode,
        elapsed_ms: u64,
        flipping: bool,
        clock: &TimerState,
    ) -> (r: Option<RebuildConfig>)
        requires
            clock.wf(),
        ensures
            *final(self) == (MorphTicker {
                last_update_ms: if shape_mode == ShapeMode::Morphing && spec_morph_due(
                    *old(self),
                    elapsed_ms,
                ) {
                    elapsed_ms
                } else {
                    old(self).last_update_ms
                },
            }),
            r == (if shape_mode == ShapeMode::Morphing && spec_morph_due(*old(self), elapsed_ms)
                && !flipping {
                Some(
                    RebuildConfig {
                        body: spec_morphed_config(elapsed_ms).0,
                        plates: spec_morphed_config(elapsed_ms).1,
                        fill_milli: spec_fill_milli(clock.remaining_ms, clock.duration_ms) as u32,
                    },
                )
            } else {
                None::<RebuildConfig>
            }),
    {
        if !(shape_mode == ShapeMode::Morphing) {
            return None;
        }
        if !(elapsed_ms >= self.last_update_ms && elapsed_ms - self.last_update_ms
            >= MORPH_MIN_INTERVAL_MS) {
            return None;
        }
        self.last_update_ms = elapsed_ms;
        if flipping {
            return None;
        }
        let (body, plates) = get_morphed_shape_config(elapsed_ms);
        let fill = fill_fraction_milli(clock);
        Some(RebuildConfig { body, plates, fill_milli: fill })
    }
}

/// One static-mode rebuild check: when the configuration has changed since
/// it was last applied and the silhouette is not morphing, the instance is
/// rebuilt with the chosen preset and the fill level read from the live
/// clock. The caller carries the in-flight drag gesture over unchanged.
pub fn plan_static_rebuild(
    config_changed: bool,
    config: &HourglassConfig,
    clock: &TimerState,
) -> (r: Option<RebuildConfig>)
    requires
        clock.wf(),
    ensures
        r == (if config_changed && config.shape_mode == ShapeMode::Static {
            Some(
                RebuildConfig {
                    body: spec_main_preset(config.shape_type).0,
                    plates: spec_main_preset(config.shape_type).1,
                    fill_milli: spec_fill_milli(clock.remaining_ms, clock.duration_ms) as u32,
                },
            )
        } else {
            None::<RebuildConfig>
        }),
{
    if config_changed && config.shape_mode == ShapeMode::Static {
        let (body, plates) = get_main_shape_config(config.shape_type);
        let fill = fill_fraction_milli(clock);
        Some(RebuildConfig { body, plates, fill_milli: fill })
    } else {
        None
    }
}

} // verus!
