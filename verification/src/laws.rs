//! Laws of the layout engine, stated and proved over its specification:
//! alignment offsets, additive column advance, uniform row advance for
//! unit-sized content, blank-line behaviour, and determinism.

use vstd::prelude::*;

use crate::content::Content;
use crate::content::TextSpan;
use crate::content::VAlign;
use crate::fonts::FontMap;
use crate::layout::advance_of;
use crate::layout::col_at;
use crate::layout::layout_from;
use crate::layout::lemma_line_end_bounds;
use crate::layout::line_advance;
use crate::layout::line_end;
use crate::layout::line_max_ratio;
use crate::layout::line_start;
use crate::layout::max_from;
use crate::layout::newlines_in;
use crate::layout::num_lines;
use crate::layout::offset_of;
use crate::layout::place_line;
use crate::layout::row_after;
use crate::layout::row_of;
use crate::layout::span_of;
use crate::layout::spans_in;
use crate::layout::spec_layout;
use crate::layout::views_of;
use crate::place::spec_place;
use crate::place::DrawConfig;
use crate::place::Placement;
use crate::place::PlacementModel;
use vstd::arithmetic::div_mod::lemma_div_multiples_vanish;

verus! {

/// Under Top alignment a span's vertical offset is zero, whatever the
/// line's dominant ratio and the span's own ratio are.
pub proof fn lemma_top_offset_zero(line_ratio: int, ratio: int)
    ensures
        offset_of(VAlign::Top, line_ratio, ratio) == 0,
{
}

/// For a line of exactly two spans whose ratios satisfy `r1 < r2` with
/// `r2` at least one unit, the dominant ratio is `r2`, so the smaller
/// span's Middle offset is `(r2 - r1) / 2` and its Bottom offset is
/// `r2 - r1`.
pub proof fn lemma_two_span_line_offsets(s1: TextSpan, s2: TextSpan)
    requires
        s1.size_ratio < s2.size_ratio,
        crate::SCALE <= s2.size_ratio,
    ensures
        line_end(seq![Content::Span(s1), Content::Span(s2)], 0) == 2,
        line_max_ratio(seq![Content::Span(s1), Content::Span(s2)], 0, 2) == s2.size_ratio,
        offset_of(
            VAlign::Middle,
            line_max_ratio(seq![Content::Span(s1), Content::Span(s2)], 0, 2),
            s1.size_ratio as int,
        ) == (s2.size_ratio - s1.size_ratio) / 2,
        offset_of(
            VAlign::Bottom,
            line_max_ratio(seq![Content::Span(s1), Content::Span(s2)], 0, 2),
            s1.size_ratio as int,
        ) == s2.size_ratio - s1.size_ratio,
{
    let items = seq![Content::Span(s1), Content::Span(s2)];
    let acc1: int = if s1.size_ratio > crate::SCALE {
        s1.size_ratio as int
    } else {
        crate::SCALE as int
    };
    assert(max_from(items, 0, 2, crate::SCALE as int) == max_from(items, 1, 2, acc1));
    assert(max_from(items, 1, 2, acc1) == max_from(items, 2, 2, s2.size_ratio as int));
    assert(line_end(items, 0) == line_end(items, 1));
    assert(line_end(items, 1) == line_end(items, 2));
}

/// Column advance within a line is additive and left-to-right: when the
/// first two items of a line are spans, the first is placed at the
/// cursor column and the second exactly one advance -- the first span's
/// character count times its size ratio -- to the right of it.
pub proof fn lemma_column_advance(
    items: Seq<Content>,
    i: int,
    end: int,
    col: int,
    row: int,
    line_ratio: int,
    align: VAlign,
    cfg: DrawConfig,
    fonts: FontMap,
    s1: TextSpan,
    s2: TextSpan,
)
    requires
        0 <= i,
        i + 2 <= end,
        items[i] == Content::Span(s1),
        items[i + 1] == Content::Span(s2),
    ensures
        place_line(items, i, end, col, row, line_ratio, align, cfg, fonts).len() >= 2,
        place_line(items, i, end, col, row, line_ratio, align, cfg, fonts)[0] == spec_place(
            s1,
            col,
            row + offset_of(align, line_ratio, s1.size_ratio as int),
            cfg,
            fonts.spec_get(s1.style)->0,
        ),
        place_line(items, i, end, col, row, line_ratio, align, cfg, fonts)[1] == spec_place(
            s2,
            col + advance_of(s1),
            row + offset_of(align, line_ratio, s2.size_ratio as int),
            cfg,
            fonts.spec_get(s2.style)->0,
        ),
{
    let first = place_line(items, i, end, col, row, line_ratio, align, cfg, fonts);
    let second = place_line(items, i + 1, end, col + advance_of(s1), row, line_ratio, align, cfg, fonts);
    assert(first == seq![
        spec_place(
            s1,
            col,
            row + offset_of(align, line_ratio, s1.size_ratio as int),
            cfg,
            fonts.spec_get(s1.style)->0,
        ),
    ] + second);
    assert(second == seq![
        spec_place(
            s2,
            col + advance_of(s1),
            row + offset_of(align, line_ratio, s2.size_ratio as int),
            cfg,
            fonts.spec_get(s2.style)->0,
        ),
    ] + place_line(
        items,
        i + 2,
        end,
        col + advance_of(s1) + advance_of(s2),
        row,
        line_ratio,
        align,
        cfg,
        fonts,
    ));
    assert(first[1] == second[0]);
}

/// Every span of the sequence has a size ratio of exactly one unit.
pub open spec fn all_unit_spans(items: Seq<Content>) -> bool {
    forall|i: int|
        0 <= i < items.len() && #[trigger] items[i] is Span ==> span_of(items[i]).size_ratio
            == crate::SCALE
}

/// With unit-ratio spans the running maximum started at one unit stays
/// exactly one unit.
proof fn lemma_max_from_units(items: Seq<Content>, i: int, end: int)
    requires
        all_unit_spans(items),
        0 <= i,
        end <= items.len(),
    ensures
        max_from(items, i, end, crate::SCALE as int) == crate::SCALE,
    decreases end - i,
{
    if i < end {
        match items[i] {
            Content::Span(s) => {
                assert(items[i] is Span);
                lemma_max_from_units(items, i + 1, end);
            },
            Content::Newline => {
                lemma_max_from_units(items, i + 1, end);
            },
        }
    }
}

/// With every span at exactly one unit of size and a line spacing of one
/// unit, the cursor row advances by exactly one unit per line -- one per
/// line break and one for a final line not ended by a break -- with no
/// drift: after the whole sequence it sits exactly `num_lines` units
/// below where it started.
pub proof fn lemma_unit_rows(items: Seq<Content>, i: int, row: int)
    requires
        all_unit_spans(items),
        0 <= i,
    ensures
        row_after(items, crate::SCALE as int, i, row) == row + crate::SCALE * num_lines(items, i),
    decreases items.len() - i,
{
    if i < items.len() {
        crate::layout::lemma_line_end_bounds(items, i);
        let end = line_end(items, i);
        lemma_max_from_units(items, i, end);
        assert(line_advance(items, i, crate::SCALE as int) == crate::SCALE);
        lemma_unit_rows(items, end, row + crate::SCALE);
    }
}

/// A content sequence of exactly one line break produces no placements
/// and advances the cursor row by exactly one unit times the line
/// spacing ratio.
pub proof fn lemma_blank_line(
    fonts: FontMap,
    cfg: DrawConfig,
    start_col: int,
    spacing: int,
    align: VAlign,
    row: int,
)
    ensures
        spec_layout(seq![Content::Newline], fonts, cfg, start_col, row, spacing, align)
            == Seq::<PlacementModel>::empty(),
        row_after(seq![Content::Newline], spacing, 0, row) == row + spacing,
{
    let items = seq![Content::Newline];
    assert(line_end(items, 0) == 1);
    assert(max_from(items, 1, 1, crate::SCALE as int) == crate::SCALE);
    assert(line_max_ratio(items, 0, 1) == crate::SCALE);
    lemma_div_multiples_vanish(spacing, crate::SCALE as int);
    assert(line_advance(items, 0, spacing) == spacing);
    assert(place_line(items, 0, 1, start_col, row, crate::SCALE as int, align, cfg, fonts)
        == place_line(items, 1, 1, start_col, row, crate::SCALE as int, align, cfg, fonts));
    assert(place_line(items, 1, 1, start_col, row, crate::SCALE as int, align, cfg, fonts)
        == Seq::<PlacementModel>::empty());
    assert(layout_from(items, fonts, cfg, start_col, spacing, align, 1, row + spacing)
        == Seq::<PlacementModel>::empty());
    assert(layout_from(items, fonts, cfg, start_col, spacing, align, 0, row)
        =~= Seq::<PlacementModel>::empty());
    assert(spec_layout(items, fonts, cfg, start_col, row, spacing, align)
        =~= Seq::<PlacementModel>::empty());
    assert(row_after(items, spacing, 1, row + spacing) == row + spacing);
    assert(row_after(items, spacing, 0, row) == row + spacing);
}

/// Span and line-break counts are nonnegative.
proof fn lemma_counts_nonneg(items: Seq<Content>, i: int, k: int)
    ensures
        0 <= spans_in(items, i, k),
        0 <= newlines_in(items, i, k),
    decreases k - i,
{
    if i < k {
        lemma_counts_nonneg(items, i + 1, k);
    }
}

/// Span and line-break counts split at any middle position.
proof fn lemma_counts_split(items: Seq<Content>, i: int, m: int, k: int)
    requires
        i <= m <= k,
    ensures
        spans_in(items, i, k) == spans_in(items, i, m) + spans_in(items, m, k),
        newlines_in(items, i, k) == newlines_in(items, i, m) + newlines_in(items, m, k),
    decreases m - i,
{
    if i < m {
        lemma_counts_split(items, i + 1, m, k);
    }
}

/// A line produces exactly one placement per span in it.
proof fn lemma_place_line_len(
    items: Seq<Content>,
    i: int,
    end: int,
    col: int,
    row: int,
    m: int,
    align: VAlign,
    cfg: DrawConfig,
    fonts: FontMap,
)
    ensures
        place_line(items, i, end, col, row, m, align, cfg, fonts).len() == spans_in(items, i, end),
    decreases end - i,
{
    if i < end {
        match items[i] {
            Content::Span(s) => {
                lemma_place_line_len(items, i + 1, end, col + advance_of(s), row, m, align, cfg, fonts);
            },
            Content::Newline => {
                lemma_place_line_len(items, i + 1, end, col, row, m, align, cfg, fonts);
            },
        }
    }
}

/// Column advance within a line, in full generality: the span at
/// position `k`, preceded by `n = spans_in(items, i, k)` spans of the
/// line, becomes the line's `n`-th placement, at column
/// `col_at(items, i, k, col)` -- the line's start column plus the sum
/// of the advances (character count times size ratio) of every span
/// before it -- and at the line row plus its own alignment offset.
pub proof fn lemma_line_columns(
    items: Seq<Content>,
    i: int,
    end: int,
    col: int,
    row: int,
    m: int,
    align: VAlign,
    cfg: DrawConfig,
    fonts: FontMap,
    k: int,
)
    requires
        0 <= i <= k < end,
        items[k] is Span,
    ensures
        0 <= spans_in(items, i, k) < place_line(items, i, end, col, row, m, align, cfg, fonts).len(),
        place_line(items, i, end, col, row, m, align, cfg, fonts)[spans_in(items, i, k)]
            == spec_place(
            span_of(items[k]),
            col_at(items, i, k, col),
            row + offset_of(align, m, span_of(items[k]).size_ratio as int),
            cfg,
            fonts.spec_get(span_of(items[k]).style)->0,
        ),
    decreases k - i,
{
    lemma_counts_nonneg(items, i, k);
    lemma_place_line_len(items, i, end, col, row, m, align, cfg, fonts);
    if i < k {
        match items[i] {
            Content::Span(s) => {
                lemma_line_columns(items, i + 1, end, col + advance_of(s), row, m, align, cfg, fonts, k);
            },
            Content::Newline => {
                lemma_line_columns(items, i + 1, end, col, row, m, align, cfg, fonts, k);
            },
        }
    }
}

/// The whole layout produces exactly one placement per span.
proof fn lemma_layout_from_len(
    items: Seq<Content>,
    fonts: FontMap,
    cfg: DrawConfig,
    start_col: int,
    spacing: int,
    align: VAlign,
    i: int,
    row: int,
)
    requires
        0 <= i,
    ensures
        layout_from(items, fonts, cfg, start_col, spacing, align, i, row).len() == spans_in(
            items,
            i,
            items.len() as int,
        ),
    decreases items.len() - i,
{
    if i < items.len() {
        lemma_line_end_bounds(items, i);
        let end = line_end(items, i);
        lemma_place_line_len(
            items,
            i,
            end,
            start_col,
            row,
            line_max_ratio(items, i, end),
            align,
            cfg,
            fonts,
        );
        lemma_layout_from_len(
            items,
            fonts,
            cfg,
            start_col,
            spacing,
            align,
            end,
            row + line_advance(items, i, spacing),
        );
        lemma_counts_split(items, i, end, items.len() as int);
    }
}

/// Every span's placement, located in the whole layout: the span at
/// position `k`, preceded by `spans_in(items, i, k)` spans overall,
/// sits in its own line -- the line from `line_start`, whose cursor row
/// is `row_of` -- at the line's start column plus the advances of the
/// spans before it in that line, shifted down by its alignment offset
/// within that line alone. Nothing outside its line moves it sideways,
/// and nothing anywhere moves it vertically except the rows of the
/// lines above it and its own line's dominant ratio.
pub proof fn lemma_layout_span(
    items: Seq<Content>,
    fonts: FontMap,
    cfg: DrawConfig,
    start_col: int,
    spacing: int,
    align: VAlign,
    i: int,
    row: int,
    k: int,
)
    requires
        0 <= i <= k < items.len(),
        items[k] is Span,
    ensures
        0 <= spans_in(items, i, k) < layout_from(
            items,
            fonts,
            cfg,
            start_col,
            spacing,
            align,
            i,
            row,
        ).len(),
        layout_from(items, fonts, cfg, start_col, spacing, align, i, row)[spans_in(items, i, k)]
            == spec_place(
            span_of(items[k]),
            col_at(items, line_start(items, i, k), k, start_col),
            row_of(items, spacing, i, row, k) + offset_of(
                align,
                line_max_ratio(
                    items,
                    line_start(items, i, k),
                    line_end(items, line_start(items, i, k)),
                ),
                span_of(items[k]).size_ratio as int,
            ),
            cfg,
            fonts.spec_get(span_of(items[k]).style)->0,
        ),
    decreases items.len() - i,
{
    lemma_line_end_bounds(items, i);
    let end = line_end(items, i);
    let m = line_max_ratio(items, i, end);
    lemma_place_line_len(items, i, end, start_col, row, m, align, cfg, fonts);
    lemma_layout_from_len(
        items,
        fonts,
        cfg,
        start_col,
        spacing,
        align,
        end,
        row + line_advance(items, i, spacing),
    );
    if k < end {
        lemma_line_columns(items, i, end, start_col, row, m, align, cfg, fonts, k);
    } else {
        lemma_counts_split(items, i, end, k);
        lemma_counts_nonneg(items, end, k);
        lemma_layout_span(
            items,
            fonts,
            cfg,
            start_col,
            spacing,
            align,
            end,
            row + line_advance(items, i, spacing),
            k,
        );
    }
}

/// The start of the line holding `k` lies between the scan position and
/// `k`, and its line reaches past `k`.
proof fn lemma_line_start_bounds(items: Seq<Content>, i: int, k: int)
    requires
        0 <= i <= k < items.len(),
    ensures
        i <= line_start(items, i, k) <= k,
        k < line_end(items, line_start(items, i, k)),
    decreases items.len() - i,
{
    lemma_line_end_bounds(items, i);
    let end = line_end(items, i);
    if k >= end {
        lemma_line_start_bounds(items, end, k);
    }
}

/// Positions strictly inside a line, before its end, hold no line break.
proof fn lemma_no_newline_in_line(items: Seq<Content>, i: int, k: int)
    requires
        0 <= i <= k,
        k < line_end(items, i),
    ensures
        newlines_in(items, i, k) == 0,
    decreases k - i,
{
    if i < k {
        lemma_no_newline_in_line(items, i + 1, k);
    }
}

/// A line that ends before the end of the sequence ends with a line
/// break, and holds exactly that one break.
proof fn lemma_line_end_newline(items: Seq<Content>, i: int)
    requires
        0 <= i < items.len(),
        line_end(items, i) < items.len(),
    ensures
        items[line_end(items, i) - 1] is Newline,
        newlines_in(items, i, line_end(items, i)) == 1,
    decreases items.len() - i,
{
    match items[i] {
        Content::Newline => {
            assert(line_end(items, i) == i + 1);
            assert(newlines_in(items, i + 1, i + 1) == 0);
            assert(newlines_in(items, i, i + 1) == 1);
        },
        Content::Span(_) => {
            assert(line_end(items, i) == line_end(items, i + 1));
            assert(i + 1 < items.len()) by {
                if i + 1 >= items.len() {
                    assert(line_end(items, i + 1) == i + 1);
                }
            }
            lemma_line_end_newline(items, i + 1);
        },
    }
}

/// With unit-ratio spans and unit line spacing, the row of the line
/// holding `k` is exactly one unit per line break before `k` below the
/// starting row.
proof fn lemma_unit_row_of(items: Seq<Content>, i: int, row: int, k: int)
    requires
        all_unit_spans(items),
        0 <= i <= k < items.len(),
    ensures
        row_of(items, crate::SCALE as int, i, row, k) == row + crate::SCALE * newlines_in(
            items,
            i,
            k,
        ),
    decreases items.len() - i,
{
    lemma_line_end_bounds(items, i);
    let end = line_end(items, i);
    if k < end {
        lemma_no_newline_in_line(items, i, k);
    } else {
        lemma_max_from_units(items, i, end);
        lemma_line_end_newline(items, i);
        lemma_counts_split(items, i, end, k);
        lemma_counts_nonneg(items, end, k);
        lemma_unit_row_of(items, end, row + crate::SCALE as int, k);
    }
}

/// With every span at exactly one unit of size and unit line spacing,
/// each span is placed with its line-top row exactly one unit below the
/// start row per line break before it -- no drift accumulates -- and
/// with zero alignment offset under every mode, since each line's
/// dominant ratio equals the one-unit floor.
pub proof fn lemma_unit_span_rows(
    items: Seq<Content>,
    fonts: FontMap,
    cfg: DrawConfig,
    start_col: int,
    start_row: int,
    align: VAlign,
    k: int,
)
    requires
        all_unit_spans(items),
        0 <= k < items.len(),
        items[k] is Span,
    ensures
        spec_layout(items, fonts, cfg, start_col, start_row, crate::SCALE as int, align)[spans_in(
            items,
            0,
            k,
        )] == spec_place(
            span_of(items[k]),
            col_at(items, line_start(items, 0, k), k, start_col),
            start_row + crate::SCALE * newlines_in(items, 0, k),
            cfg,
            fonts.spec_get(span_of(items[k]).style)->0,
        ),
{
    lemma_layout_span(items, fonts, cfg, start_col, crate::SCALE as int, align, 0, start_row, k);
    lemma_unit_row_of(items, 0, start_row, k);
    lemma_line_start_bounds(items, 0, k);
    let ls = line_start(items, 0, k);
    lemma_line_end_bounds(items, ls);
    lemma_max_from_units(items, ls, line_end(items, ls));
    assert(items[k] is Span);
}

/// Under Top alignment every span is placed exactly at its line's
/// cursor row, independent of the size ratios of the other spans in the
/// same line.
pub proof fn lemma_top_span_rows(
    items: Seq<Content>,
    fonts: FontMap,
    cfg: DrawConfig,
    start_col: int,
    start_row: int,
    spacing: int,
    k: int,
)
    requires
        0 <= k < items.len(),
        items[k] is Span,
    ensures
        spec_layout(items, fonts, cfg, start_col, start_row, spacing, VAlign::Top)[spans_in(
            items,
            0,
            k,
        )] == spec_place(
            span_of(items[k]),
            col_at(items, line_start(items, 0, k), k, start_col),
            row_of(items, spacing, 0, start_row, k),
            cfg,
            fonts.spec_get(span_of(items[k]).style)->0,
        ),
{
    lemma_layout_span(items, fonts, cfg, start_col, spacing, VAlign::Top, 0, start_row, k);
}

/// Each line of a run of line breaks advances the cursor row by the
/// one-unit floor times the line spacing ratio.
proof fn lemma_blank_prefix_row(items: Seq<Content>, spacing: int, j: int, row: int, k: int)
    requires
        0 <= j <= k < items.len(),
        forall|t: int| j <= t < k ==> #[trigger] items[t] is Newline,
        items[k] is Span,
    ensures
        row_of(items, spacing, j, row, k) == row + (k - j) * spacing,
    decreases k - j,
{
    lemma_line_end_bounds(items, j);
    if j < k {
        assert(items[j] is Newline);
        assert(line_end(items, j) == j + 1);
        assert(max_from(items, j + 1, j + 1, crate::SCALE as int) == crate::SCALE);
        assert(line_max_ratio(items, j, j + 1) == crate::SCALE);
        lemma_div_multiples_vanish(spacing, crate::SCALE as int);
        assert(line_advance(items, j, spacing) == spacing);
        lemma_blank_prefix_row(items, spacing, j + 1, row + spacing, k);
        assert(row_of(items, spacing, j, row, k) == row_of(items, spacing, j + 1, row + spacing, k));
        assert((k - j) * spacing == (k - j - 1) * spacing + spacing) by (nonlinear_arith);
    } else {
        assert(k < line_end(items, j));
        assert(row_of(items, spacing, j, row, k) == row);
        assert((k - j) * spacing == 0);
    }
}

/// A run of line breaks holds no span, and the line of the first span
/// after it starts at that span.
proof fn lemma_blank_prefix_start(items: Seq<Content>, j: int, k: int)
    requires
        0 <= j <= k < items.len(),
        forall|t: int| j <= t < k ==> #[trigger] items[t] is Newline,
        items[k] is Span,
    ensures
        spans_in(items, j, k) == 0,
        line_start(items, j, k) == k,
    decreases k - j,
{
    lemma_line_end_bounds(items, j);
    if j < k {
        assert(items[j] is Newline);
        lemma_blank_prefix_start(items, j + 1, k);
    }
}

/// A run of `k` line breaks before a span pushes that span's line down
/// by exactly one unit times the line spacing ratio per break: the span
/// -- the first placement of the block -- is placed at the start
/// column, `k` blank lines below the start row, plus its alignment
/// offset within its own line.
pub proof fn lemma_blank_lines_push_down(
    items: Seq<Content>,
    fonts: FontMap,
    cfg: DrawConfig,
    start_col: int,
    start_row: int,
    spacing: int,
    align: VAlign,
    k: int,
)
    requires
        0 <= k < items.len(),
        forall|t: int| 0 <= t < k ==> #[trigger] items[t] is Newline,
        items[k] is Span,
    ensures
        spans_in(items, 0, k) == 0,
        spec_layout(items, fonts, cfg, start_col, start_row, spacing, align)[0] == spec_place(
            span_of(items[k]),
            start_col,
            start_row + k * spacing + offset_of(
                align,
                line_max_ratio(items, k, line_end(items, k)),
                span_of(items[k]).size_ratio as int,
            ),
            cfg,
            fonts.spec_get(span_of(items[k]).style)->0,
        ),
{
    lemma_layout_span(items, fonts, cfg, start_col, spacing, align, 0, start_row, k);
    lemma_blank_prefix_row(items, spacing, 0, start_row, k);
    lemma_blank_prefix_start(items, 0, k);
}

/// Layout is deterministic: two placement sequences laid out from the
/// same content, fonts and configuration are the same sequence.
pub proof fn lemma_layout_deterministic(
    a: Seq<Placement>,
    b: Seq<Placement>,
    items: Seq<Content>,
    fonts: FontMap,
    cfg: DrawConfig,
    start_col: int,
    start_row: int,
    spacing: int,
    align: VAlign,
)
    requires
        views_of(a) == spec_layout(items, fonts, cfg, start_col, start_row, spacing, align),
        views_of(b) == spec_layout(items, fonts, cfg, start_col, start_row, spacing, align),
    ensures
        views_of(a) == views_of(b),
{
}

} // verus!
