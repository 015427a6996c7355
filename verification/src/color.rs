//! Colors carried by text fragments: a named palette entry or an explicit
//! red/green/blue triple, each channel in thousandths of full intensity
//! (so channels range over `0..=SCALE`).

use vstd::prelude::*;

verus! {

/// A palette entry with a fixed red/green/blue value.
#[derive(Clone, Copy, Debug, PartialEq, Eq, Structural)]
pub enum NamedColor {
    Black,
    White,
    Red,
    Green,
    Blue,
}

/// The color attached to a span: either a palette entry or an explicit
/// triple, each channel in `0..=SCALE` (thousandths of full intensity).
#[derive(Clone, Copy, Debug, PartialEq, Eq, Structural)]
pub enum SlideColor {
    Named(NamedColor),
    Custom(u64, u64, u64),
}

/// A resolved color: red, green and blue channels, each in `0..=SCALE`.
#[derive(Clone, Copy, Debug, PartialEq, Eq, Structural)]
pub struct RgbColor {
    pub r: u64,
    pub g: u64,
    pub b: u64,
}

/// The channel triple a named palette entry stands for.
pub open spec fn spec_named_rgb(c: NamedColor) -> RgbColor {
    match c {
        NamedColor::Black => RgbColor { r: 0, g: 0, b: 0 },
        NamedColor::White => RgbColor { r: 1000, g: 1000, b: 1000 },
        NamedColor::Red => RgbColor { r: 800, g: 0, b: 0 },
        NamedColor::Green => RgbColor { r: 0, g: 800, b: 0 },
        NamedColor::Blue => RgbColor { r: 0, g: 0, b: 800 },
    }
}

/// The channel triple a color resolves to.
pub open spec fn spec_resolve(c: SlideColor) -> RgbColor {
    match c {
        SlideColor::Named(n) => spec_named_rgb(n),
        SlideColor::Custom(r, g, b) => RgbColor { r: r, g: g, b: b },
    }
}

/// A color is valid when each explicit channel is at most full intensity.
pub open spec fn valid_color(c: SlideColor) -> bool {
    match c {
        SlideColor::Named(_) => true,
        SlideColor::Custom(r, g, b) => r <= crate::SCALE && g <= crate::SCALE && b <= crate::SCALE,
    }
}

impl SlideColor {
    /// Resolve this color to its channel triple.
    pub fn resolve(&self) -> (rgb: RgbColor)
        ensures
            rgb == spec_resolve(*self),
    {
        match *self {
            SlideColor::Named(n) => match n {
                NamedColor::Black => RgbColor { r: 0, g: 0, b: 0 },
                NamedColor::White => RgbColor { r: 1000, g: 1000, b: 1000 },
                NamedColor::Red => RgbColor { r: 800, g: 0, b: 0 },
                NamedColor::Green => RgbColor { r: 0, g: 800, b: 0 },
                NamedColor::Blue => RgbColor { r: 0, g: 0, b: 800 },
            },
            SlideColor::Custom(r, g, b) => RgbColor { r: r, g: g, b: b },
        }
    }
}

} // verus!
