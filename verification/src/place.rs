//! The single-fragment placer: given one span and an absolute grid
//! position, resolve its style and color and compute the placement
//! instruction that draws it.

use vstd::prelude::*;

use crate::color::spec_resolve;
use crate::color::RgbColor;
use crate::content::valid_span;
use crate::content::TextSpan;
use crate::fonts::FontMap;
use crate::fonts::FontStyle;
use crate::grid::grid_to_page;
use crate::grid::spec_x;
use crate::grid::spec_y_top;
use vstd::arithmetic::div_mod::lemma_div_nonincreasing;
use vstd::arithmetic::mul::lemma_mul_upper_bound;

verus! {

/// The fixed parameters of one layout pass: the page's physical height
/// and the size of one grid cell, both in thousandths of a point.
#[derive(Clone, Copy, Debug, PartialEq, Eq, Structural)]
pub struct DrawConfig {
    pub page_height: u64,
    pub base_size: u64,
}

/// A configuration is valid when both dimensions are positive and bounded.
pub open spec fn valid_config(c: DrawConfig) -> bool {
    &&& 0 < c.base_size <= crate::MAX_BASE
    &&& 0 < c.page_height <= crate::MAX_PAGE
}

/// The failure a layout call can surface: a span's style has no
/// registered font resource.
#[derive(Clone, Copy, Debug, PartialEq, Eq, Structural)]
pub enum LayoutError {
    StyleNotFound,
}

/// One drawing instruction: where and how to draw one text fragment.
///
/// `x` and `y` are the anchor's page coordinates in thousandths of a
/// point, bottom-left origin; `y` is the baseline, one font size below
/// the fragment's top edge. `font` is the handle the caller registered
/// for the span's style; `size` is the resolved font size in thousandths
/// of a point.
#[derive(Clone, Debug, PartialEq)]
pub struct Placement {
    pub x: u64,
    pub y: i64,
    pub style: FontStyle,
    pub font: u64,
    pub size: u64,
    pub color: RgbColor,
    pub text: String,
}

/// The mathematical image of a placement: the same fields over
/// unbounded integers and character sequences.
pub ghost struct PlacementModel {
    pub x: int,
    pub y: int,
    pub style: FontStyle,
    pub font: u64,
    pub size: int,
    pub color: RgbColor,
    pub text: Seq<char>,
}

impl View for Placement {
    type V = PlacementModel;

    open spec fn view(&self) -> PlacementModel {
        PlacementModel {
            x: self.x as int,
            y: self.y as int,
            style: self.style,
            font: self.font,
            size: self.size as int,
            color: self.color,
            text: self.text@,
        }
    }
}

/// The resolved font size of a ratio: `base * ratio / SCALE`.
pub open spec fn spec_font_size(base: int, ratio: int) -> int {
    base * ratio / (crate::SCALE as int)
}

/// The placement of span `s` whose top-left corner sits at grid position
/// `(col, row)`: the anchor is the baseline point, one font size below
/// the top edge, and the color is resolved to its channel triple.
pub open spec fn spec_place(s: TextSpan, col: int, row: int, cfg: DrawConfig, font: u64) -> PlacementModel {
    PlacementModel {
        x: spec_x(col, cfg.base_size as int),
        y: cfg.page_height - spec_y_top(row, cfg.base_size as int)
            - spec_font_size(cfg.base_size as int, s.size_ratio as int),
        style: s.style,
        font: font,
        size: spec_font_size(cfg.base_size as int, s.size_ratio as int),
        color: spec_resolve(s.color),
        text: s.text@,
    }
}

/// Place one span at absolute grid position `(col, row)`.
///
/// Fails with `StyleNotFound`, and only then, when the span's style has
/// no registered font resource.
pub fn place_span(span: &TextSpan, col: u64, row: u64, config: &DrawConfig, fonts: &FontMap) -> (r:
    Result<Placement, LayoutError>)
    requires
        valid_span(*span),
        valid_config(*config),
        col <= crate::CURSOR_LIMIT,
        row <= crate::CURSOR_LIMIT + crate::MAX_RATIO,
    ensures
        r is Ok <==> fonts.spec_get(span.style) is Some,
        r matches Ok(p) ==> p@ == spec_place(
            *span,
            col as int,
            row as int,
            *config,
            fonts.spec_get(span.style)->0,
        ),
        r is Err ==> r == Err::<Placement, LayoutError>(LayoutError::StyleNotFound),
{
    let font = match fonts.get(span.style) {
        Some(f) => f,
        None => {
            return Err(LayoutError::StyleNotFound);
        },
    };
    let color = span.color.resolve();
    proof {
        lemma_mul_upper_bound(
            row as int,
            (crate::CURSOR_LIMIT + crate::MAX_RATIO) as int,
            config.base_size as int,
            crate::MAX_BASE as int,
        );
        vstd::arithmetic::div_mod::lemma_div_pos_is_pos(
            row as int * config.base_size as int,
            crate::SCALE as int,
        );
        lemma_div_nonincreasing(row as int * config.base_size as int, crate::SCALE as int);
        lemma_mul_upper_bound(
            config.base_size as int,
            crate::MAX_BASE as int,
            span.size_ratio as int,
            crate::MAX_RATIO as int,
        );
        lemma_div_nonincreasing(
            config.base_size as int * span.size_ratio as int,
            crate::SCALE as int,
        );
    }
    let font_size: u64 = config.base_size * span.size_ratio / 1000;
    let (x, y_from_bottom) = grid_to_page(col, row, config.page_height, config.base_size);
    let baseline_y: i64 = y_from_bottom - font_size as i64;
    Ok(
        Placement {
            x: x,
            y: baseline_y,
            style: span.style,
            font: font,
            size: font_size,
            color: color,
            text: span.text.clone(),
        },
    )
}

} // verus!
