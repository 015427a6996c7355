//! The content model the layout engine consumes: an ordered sequence of
//! styled text spans and explicit line breaks.

use vstd::prelude::*;

use crate::color::valid_color;
use crate::color::SlideColor;
use crate::fonts::FontMap;
use crate::fonts::FontStyle;

verus! {

/// One run of text with a single style, size ratio and color.
///
/// `size_ratio` is the span's font size as a multiple of the base grid
/// size, in thousandths: a ratio of `SCALE` means exactly one grid unit.
#[derive(Clone, Debug)]
pub struct TextSpan {
    pub text: String,
    pub style: FontStyle,
    pub size_ratio: u64,
    pub color: SlideColor,
}

/// One item of a content sequence: a text span, or a line break.
#[derive(Clone, Debug)]
pub enum Content {
    Span(TextSpan),
    Newline,
}

/// How a span smaller than its line's dominant size sits within the line.
#[derive(Clone, Copy, Debug, PartialEq, Eq, Structural)]
pub enum VAlign {
    Top,
    Middle,
    Bottom,
}

/// A span is valid when its ratio is positive and bounded, its text is
/// bounded, and its color channels are in range.
pub open spec fn valid_span(s: TextSpan) -> bool {
    &&& 0 < s.size_ratio <= crate::MAX_RATIO
    &&& s.text@.len() <= crate::MAX_SPAN_CHARS
    &&& valid_color(s.color)
}

/// A content sequence is valid when it is bounded and every span in it
/// is valid.
pub open spec fn valid_contents(items: Seq<Content>) -> bool {
    &&& items.len() <= crate::MAX_ITEMS
    &&& forall|i: int|
        0 <= i < items.len() ==> match #[trigger] items[i] {
            Content::Span(s) => valid_span(s),
            Content::Newline => true,
        }
}

/// Every span of the sequence has a font registered for its style.
pub open spec fn styles_resolved(items: Seq<Content>, fonts: FontMap) -> bool {
    forall|i: int|
        0 <= i < items.len() ==> match #[trigger] items[i] {
            Content::Span(s) => fonts.spec_get(s.style) is Some,
            Content::Newline => true,
        }
}

} // verus!
