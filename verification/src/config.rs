//! Shared configuration: color, shape preset and the two mode switches,
//! with the change tracking that decides when a consumer must re-apply it.

use vstd::prelude::*;

verus! {

/// Largest channel value: channels are thousandths of full intensity.
pub const CHANNEL_MAX: u16 = 1000;

/// An RGB color; each channel in thousandths, `0..=1000`.
#[derive(Clone, Copy, Debug, PartialEq, Eq, Structural)]
pub struct Rgb {
    pub r: u16,
    pub g: u16,
    pub b: u16,
}

impl Rgb {
    /// Every channel within range.
    pub open spec fn wf(self) -> bool {
        self.r <= CHANNEL_MAX && self.g <= CHANNEL_MAX && self.b <= CHANNEL_MAX
    }

    pub fn new(r: u16, g: u16, b: u16) -> (c: Rgb)
        requires
            r <= CHANNEL_MAX,
            g <= CHANNEL_MAX,
            b <= CHANNEL_MAX,
        ensures
            c == (Rgb { r, g, b }),
            c.wf(),
    {
        Rgb { r, g, b }
    }
}

/// How the sand color is chosen.
#[derive(Clone, Copy, Debug, PartialEq, Eq, Structural)]
pub enum ColorMode {
    Static,
    Random,
    Rainbow,
}

/// The four named silhouette presets.
#[derive(Clone, Copy, Debug, PartialEq, Eq, Structural)]
pub enum HourglassShape {
    Classic,
    Modern,
    Slim,
    Wide,
}

/// Whether the silhouette stays fixed or morphs continuously.
#[derive(Clone, Copy, Debug, PartialEq, Eq, Structural)]
pub enum ShapeMode {
    Static,
    Morphing,
}

/// The current hourglass configuration: sand color, chosen preset and the
/// color and shape modes.
#[derive(Clone, Copy, Debug, PartialEq, Eq, Structural)]
pub struct HourglassConfig {
    pub color: Rgb,
    pub shape_type: HourglassShape,
    pub color_mode: ColorMode,
    pub shape_mode: ShapeMode,
}

/// The sandy default color.
pub open spec fn spec_default_color() -> Rgb {
    Rgb { r: 800, g: 600, b: 200 }
}

impl HourglassConfig {
    pub open spec fn wf(self) -> bool {
        self.color.wf()
    }

    /// Sandy color, classic silhouette, both modes static.
    pub fn new() -> (c: HourglassConfig)
        ensures
            c.color == spec_default_color(),
            c.shape_type == HourglassShape::Classic,
            c.color_mode == ColorMode::Static,
            c.shape_mode == ShapeMode::Static,
            c.wf(),
    {
        HourglassConfig {
            color: Rgb { r: 800, g: 600, b: 200 },
            shape_type: HourglassShape::Classic,
            color_mode: ColorMode::Static,
            shape_mode: ShapeMode::Static,
        }
    }

    /// Pick a palette color: the color becomes `color` and the mode static.
    /// Shape settings are untouched.
    pub fn select_color(&mut self, color: Rgb)
        ensures
            final(self).color == color,
            final(self).color_mode == ColorMode::Static,
            final(self).shape_type == old(self).shape_type,
            final(self).shape_mode == old(self).shape_mode,
    {
        self.color = color;
        self.color_mode = ColorMode::Static;
    }

    /// Switch to rainbow mode; the color itself changes only on later
    /// rainbow updates.
    pub fn select_rainbow(&mut self)
        ensures
            final(self).color_mode == ColorMode::Rainbow,
            final(self).color == old(self).color,
            final(self).shape_type == old(self).shape_type,
            final(self).shape_mode == old(self).shape_mode,
    {
        self.color_mode = ColorMode::Rainbow;
    }

    /// Pick a fixed silhouette; selecting one always leaves morphing mode.
    pub fn select_shape(&mut self, shape: HourglassShape)
        ensures
            final(self).shape_type == shape,
            final(self).shape_mode == ShapeMode::Static,
            final(self).color == old(self).color,
            final(self).color_mode == old(self).color_mode,
    {
        self.shape_type = shape;
        self.shape_mode = ShapeMode::Static;
    }

    /// Flip between the static and the morphing silhouette.
    pub fn toggle_shape_mode(&mut self)
        ensures
            final(self).shape_mode == (if old(self).shape_mode == ShapeMode::Static {
                ShapeMode::Morphing
            } else {
                ShapeMode::Static
            }),
            final(self).color == old(self).color,
            final(self).color_mode == old(self).color_mode,
            final(self).shape_type == old(self).shape_type,
    {
        if self.shape_mode == ShapeMode::Static {
            self.shape_mode = ShapeMode::Morphing;
        } else {
            self.shape_mode = ShapeMode::Static;
        }
    }
}

impl Default for HourglassConfig {
    fn default() -> (c: HourglassConfig)
        ensures
            c.color == spec_default_color(),
            c.shape_type == HourglassShape::Classic,
            c.color_mode == ColorMode::Static,
            c.shape_mode == ShapeMode::Static,
    {
        HourglassConfig::new()
    }
}

/// The last configuration a consumer applied, or nothing yet. A consumer
/// (renderer, swatch row) re-applies exactly when the configuration differs
/// from this snapshot, instead of relying on implicit dirty flags.
#[derive(Clone, Copy, Debug)]
pub struct ConfigTracker {
    pub last_applied: Option<HourglassConfig>,
}

impl ConfigTracker {
    pub fn new() -> (t: ConfigTracker)
        ensures
            t.last_applied is None,
    {
        ConfigTracker { last_applied: None }
    }

    /// True until `cfg` (the whole record) has been marked applied.
    pub fn needs_apply(&self, cfg: &HourglassConfig) -> (r: bool)
        ensures
            r == spec_needs_apply(*self, *cfg),
    {
        match &self.last_applied {
            Option::None => true,
            Option::Some(last) => !(*last == *cfg),
        }
    }

    /// Record that `cfg` has been applied.
    pub fn mark_applied(&mut self, cfg: &HourglassConfig)
        ensures
            final(self).last_applied == Some(*cfg),
    {
        self.last_applied = Some(*cfg);
    }
}

pub open spec fn spec_needs_apply(t: ConfigTracker, cfg: HourglassConfig) -> bool {
    t.last_applied != Some(cfg)
}

/// The color selector's eight swatches, as the panel lays them out.
pub fn palette_color(i: usize) -> (c: Rgb)
    requires
        i < 8,
    ensures
        c == spec_palette_color(i as int),
        c.wf(),
{
    if i == 0 {
        Rgb { r: 0, g: 0, b: 0 }
    } else if i == 1 {
        Rgb { r: 1000, g: 1000, b: 1000 }
    } else if i == 2 {
        Rgb { r: 100, g: 300, b: 800 }
    } else if i == 3 {
        Rgb { r: 800, g: 200, b: 200 }
    } else if i == 4 {
        Rgb { r: 700, g: 100, b: 800 }
    } else if i == 5 {
        Rgb { r: 100, g: 500, b: 100 }
    } else if i == 6 {
        Rgb { r: 800, g: 800, b: 200 }
    } else {
        Rgb { r: 800, g: 400, b: 0 }
    }
}

/// Black, white, blue, red, purple, green, yellow, orange.
pub open spec fn spec_palette_color(i: int) -> Rgb {
    if i == 0 {
        Rgb { r: 0, g: 0, b: 0 }
    } else if i == 1 {
        Rgb { r: 1000, g: 1000, b: 1000 }
    } else if i == 2 {
        Rgb { r: 100, g: 300, b: 800 }
    } else if i == 3 {
        Rgb { r: 800, g: 200, b: 200 }
    } else if i == 4 {
        Rgb { r: 700, g: 100, b: 800 }
    } else if i == 5 {
        Rgb { r: 100, g: 500, b: 100 }
    } else if i == 6 {
        Rgb { r: 800, g: 800, b: 200 }
    } else {
        Rgb { r: 800, g: 400, b: 0 }
    }
}

} // verus!
