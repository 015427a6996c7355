//! A verified text-layout core for a grid-based slide generator.
//!
//! Styled text fragments flow left-to-right within lines; lines stack
//! top-to-bottom. All scalars (grid positions, size ratios, font sizes,
//! page dimensions) are fixed-point values in thousandths of their unit,
//! so that the geometry is exact integer arithmetic.

use vstd::prelude::*;

pub mod basics;
pub mod color;
pub mod content;
pub mod fonts;
pub mod grid;
pub mod laws;
pub mod layout;
pub mod options;
pub mod place;
pub mod rect;

pub use color::NamedColor;
pub use color::RgbColor;
pub use color::SlideColor;
pub use content::Content;
pub use content::TextSpan;
pub use content::VAlign;
pub use fonts::FontMap;
pub use fonts::FontStyle;
pub use layout::layout_block;
pub use place::place_span;
pub use place::DrawConfig;
pub use place::LayoutError;
pub use place::Placement;
pub use rect::Rectangle;

verus! {

/// Number of fixed-point steps per whole unit: a scalar of `1.0` units
/// is stored as `SCALE`.
pub const SCALE: u64 = 1000;

/// Largest representable size or spacing ratio (one thousand units).
pub const MAX_RATIO: u64 = 1_000_000;

/// Largest base grid size, in thousandths of a point.
pub const MAX_BASE: u64 = 1_000_000;

/// Largest page height, in thousandths of a point.
pub const MAX_PAGE: u64 = 1_000_000_000;

/// Largest starting grid coordinate, in thousandths of a grid unit.
pub const MAX_START: u64 = 1_000_000_000;

/// Largest number of items in one content sequence.
pub const MAX_ITEMS: usize = 1000;

/// Largest number of characters in one span's text.
pub const MAX_SPAN_CHARS: usize = 1000;

/// Bound on the virtual cursor (both coordinates) that the layout engine
/// keeps: large enough for any layout of a valid content sequence, small
/// enough that every product computed from it fits in a `u64`.
pub const CURSOR_LIMIT: u64 = 2_000_000_000_000;

} // verus!
