//! The line layout engine: partition a content sequence into lines,
//! measure each line's dominant size, apply vertical alignment, advance
//! a virtual cursor, and place every span.
//!
//! Each line runs from the current scan position up to and including the
//! next line break, or to the end of the sequence. The engine makes two
//! passes per line: a measure pass that finds the line's dominant size
//! ratio (with a floor of one unit), then a place pass that positions
//! each span at the current cursor, shifted down by the alignment offset,
//! and advances the cursor by the span's character count times its ratio.

use vstd::prelude::*;

use crate::content::styles_resolved;
use crate::content::valid_contents;
use crate::content::valid_span;
use crate::content::Content;
use crate::content::TextSpan;
use crate::content::VAlign;
use crate::fonts::FontMap;
use crate::place::place_span;
use crate::place::spec_place;
use crate::place::valid_config;
use crate::place::DrawConfig;
use crate::place::LayoutError;
use crate::place::Placement;
use crate::place::PlacementModel;
use vstd::arithmetic::div_mod::lemma_div_is_ordered;
use vstd::arithmetic::div_mod::lemma_div_pos_is_pos;
use vstd::arithmetic::mul::lemma_mul_upper_bound;
use vstd::pervasive::arbitrary;
use vstd::string::StrSliceExecFns;

verus! {

/// The span held by a content item.
pub open spec fn span_of(c: Content) -> TextSpan
    recommends
        c is Span,
{
    match c {
        Content::Span(s) => s,
        Content::Newline => arbitrary(),
    }
}

/// Index just past the line that starts at `i`: the line ends after the
/// first line break at or after `i`, or at the end of the sequence.
pub open spec fn line_end(items: Seq<Content>, i: int) -> int
    decreases items.len() - i,
{
    if i < 0 || i >= items.len() {
        i
    } else {
        match items[i] {
            Content::Newline => i + 1,
            Content::Span(_) => line_end(items, i + 1),
        }
    }
}

/// The largest of `acc` and the size ratios of the spans in `[i, end)`.
pub open spec fn max_from(items: Seq<Content>, i: int, end: int, acc: int) -> int
    decreases end - i,
{
    if i >= end {
        acc
    } else {
        match items[i] {
            Content::Span(s) => max_from(
                items,
                i + 1,
                end,
                if s.size_ratio > acc {
                    s.size_ratio as int
                } else {
                    acc
                },
            ),
            Content::Newline => max_from(items, i + 1, end, acc),
        }
    }
}

/// The dominant size ratio of the line `[i, end)`: the largest span
/// ratio in it, with a floor of one unit.
pub open spec fn line_max_ratio(items: Seq<Content>, i: int, end: int) -> int {
    max_from(items, i, end, crate::SCALE as int)
}

/// How far the cursor moves right after a span: its character count
/// times its size ratio.
pub open spec fn advance_of(s: TextSpan) -> int {
    s.text@.len() * s.size_ratio
}

/// The downward shift of a span of ratio `ratio` within a line of
/// dominant ratio `line_ratio`, per alignment mode.
pub open spec fn offset_of(align: VAlign, line_ratio: int, ratio: int) -> int {
    match align {
        VAlign::Top => 0,
        VAlign::Middle => (line_ratio - ratio) / 2,
        VAlign::Bottom => line_ratio - ratio,
    }
}

/// The placements of the spans of the line `[i, end)`, flowing left to
/// right from column `col` at line-top row `row`.
pub open spec fn place_line(
    items: Seq<Content>,
    i: int,
    end: int,
    col: int,
    row: int,
    line_ratio: int,
    align: VAlign,
    cfg: DrawConfig,
    fonts: FontMap,
) -> Seq<PlacementModel>
    decreases end - i,
{
    if i >= end {
        Seq::empty()
    } else {
        match items[i] {
            Content::Newline => place_line(items, i + 1, end, col, row, line_ratio, align, cfg, fonts),
            Content::Span(s) => seq![
                spec_place(
                    s,
                    col,
                    row + offset_of(align, line_ratio, s.size_ratio as int),
                    cfg,
                    fonts.spec_get(s.style)->0,
                ),
            ] + place_line(items, i + 1, end, col + advance_of(s), row, line_ratio, align, cfg, fonts),
        }
    }
}

/// How far the cursor moves down after the line that starts at `i`: the
/// line's dominant ratio times the line spacing ratio.
pub open spec fn line_advance(items: Seq<Content>, i: int, spacing: int) -> int {
    line_max_ratio(items, i, line_end(items, i)) * spacing / (crate::SCALE as int)
}

/// The placements of all lines from scan position `i`, with the cursor
/// at row `row`: the line at `i`, then the rest below it.
pub open spec fn layout_from(
    items: Seq<Content>,
    fonts: FontMap,
    cfg: DrawConfig,
    start_col: int,
    spacing: int,
    align: VAlign,
    i: int,
    row: int,
) -> Seq<PlacementModel>
    decreases items.len() - i,
{
    if i < 0 || i >= items.len() {
        Seq::empty()
    } else {
        proof {
            lemma_line_end_bounds(items, i);
        }
        place_line(
            items,
            i,
            line_end(items, i),
            start_col,
            row,
            line_max_ratio(items, i, line_end(items, i)),
            align,
            cfg,
            fonts,
        ) + layout_from(
            items,
            fonts,
            cfg,
            start_col,
            spacing,
            align,
            line_end(items, i),
            row + line_advance(items, i, spacing),
        )
    }
}

/// The full layout of a content sequence: every span's placement, in
/// emission order.
pub open spec fn spec_layout(
    items: Seq<Content>,
    fonts: FontMap,
    cfg: DrawConfig,
    start_col: int,
    start_row: int,
    spacing: int,
    align: VAlign,
) -> Seq<PlacementModel> {
    layout_from(items, fonts, cfg, start_col, spacing, align, 0, start_row)
}

/// The cursor row after laying out all lines from scan position `i`,
/// starting at row `row`.
pub open spec fn row_after(items: Seq<Content>, spacing: int, i: int, row: int) -> int
    decreases items.len() - i,
{
    if i < 0 || i >= items.len() {
        row
    } else {
        proof {
            lemma_line_end_bounds(items, i);
        }
        row_after(items, spacing, line_end(items, i), row + line_advance(items, i, spacing))
    }
}

/// The number of lines a content sequence forms from scan position `i`:
/// one per line break, plus one for a final line not ended by a break.
pub open spec fn num_lines(items: Seq<Content>, i: int) -> int
    decreases items.len() - i,
{
    if i < 0 || i >= items.len() {
        0
    } else {
        proof {
            lemma_line_end_bounds(items, i);
        }
        1 + num_lines(items, line_end(items, i))
    }
}

/// The models of a sequence of placements.
pub open spec fn views_of(s: Seq<Placement>) -> Seq<PlacementModel> {
    s.map_values(|p: Placement| p@)
}

/// The number of spans among the items of `[i, k)`.
pub open spec fn spans_in(items: Seq<Content>, i: int, k: int) -> int
    decreases k - i,
{
    if i >= k {
        0
    } else {
        (if items[i] is Span {
            1int
        } else {
            0int
        }) + spans_in(items, i + 1, k)
    }
}

/// The number of line breaks among the items of `[i, k)`.
pub open spec fn newlines_in(items: Seq<Content>, i: int, k: int) -> int
    decreases k - i,
{
    if i >= k {
        0
    } else {
        (if items[i] is Newline {
            1int
        } else {
            0int
        }) + newlines_in(items, i + 1, k)
    }
}

/// The cursor column just before the item at `k`, scanning from `i`
/// where the cursor stood at `col`: each span in between advances the
/// cursor by its character count times its size ratio.
pub open spec fn col_at(items: Seq<Content>, i: int, k: int, col: int) -> int
    decreases k - i,
{
    if i >= k {
        col
    } else {
        col_at(
            items,
            i + 1,
            k,
            col + (if items[i] is Span {
                advance_of(span_of(items[i]))
            } else {
                0int
            }),
        )
    }
}

/// The start of the line that holds position `k`, scanning line by line
/// from `i`.
pub open spec fn line_start(items: Seq<Content>, i: int, k: int) -> int
    decreases items.len() - i,
{
    if i < 0 || i >= items.len() {
        i
    } else if k < line_end(items, i) {
        i
    } else {
        proof {
            lemma_line_end_bounds(items, i);
        }
        line_start(items, line_end(items, i), k)
    }
}

/// The cursor row of the line that holds position `k`, scanning line by
/// line from `i` with the cursor at `row`.
pub open spec fn row_of(items: Seq<Content>, spacing: int, i: int, row: int, k: int) -> int
    decreases items.len() - i,
{
    if i < 0 || i >= items.len() {
        row
    } else if k < line_end(items, i) {
        row
    } else {
        proof {
            lemma_line_end_bounds(items, i);
        }
        row_of(items, spacing, line_end(items, i), row + line_advance(items, i, spacing), k)
    }
}

/// A line starting inside the sequence ends past where it starts and at
/// or before the end of the sequence.
pub proof fn lemma_line_end_bounds(items: Seq<Content>, i: int)
    requires
        0 <= i < items.len(),
    ensures
        i < line_end(items, i) <= items.len(),
    decreases items.len() - i,
{
    match items[i] {
        Content::Newline => {},
        Content::Span(_) => {
            if i + 1 < items.len() {
                lemma_line_end_bounds(items, i + 1);
            }
        },
    }
}

/// The running maximum never drops below its accumulator, never exceeds
/// the largest valid ratio when the accumulator and all spans respect
/// it, and dominates every span of the range.
pub proof fn lemma_max_from_bounds(items: Seq<Content>, i: int, end: int, acc: int)
    requires
        valid_contents(items),
        0 <= i,
        end <= items.len(),
        0 < acc <= crate::MAX_RATIO,
    ensures
        acc <= max_from(items, i, end, acc) <= crate::MAX_RATIO,
        forall|k: int|
            i <= k < end && #[trigger] items[k] is Span ==> span_of(items[k]).size_ratio <= max_from(
                items,
                i,
                end,
                acc,
            ),
    decreases end - i,
{
    if i < end {
        match items[i] {
            Content::Span(s) => {
                assert(valid_span(s)) by {
                    assert(items[i] is Span);
                }
                let acc2: int = if s.size_ratio > acc {
                    s.size_ratio as int
                } else {
                    acc
                };
                lemma_max_from_bounds(items, i + 1, end, acc2);
            },
            Content::Newline => {
                lemma_max_from_bounds(items, i + 1, end, acc);
            },
        }
    }
}

/// Mapping placements to their models commutes with appending one.
proof fn lemma_views_push(s: Seq<Placement>, p: Placement)
    ensures
        views_of(s.push(p)) == views_of(s) + seq![p@],
{
    assert(views_of(s.push(p)) =~= views_of(s) + seq![p@]);
}

/// Lay out a whole content block.
///
/// Spans flow left to right within a line; lines stack top to bottom
/// from `start_row`, each line starting back at `start_col`. Returns the
/// placements of all spans in order, or `StyleNotFound` -- and no
/// placements at all -- exactly when some span's style has no registered
/// font.
pub fn layout_block(
    contents: &Vec<Content>,
    fonts: &FontMap,
    config: &DrawConfig,
    start_col: u64,
    start_row: u64,
    line_spacing_ratio: u64,
    align: VAlign,
) -> (r: Result<Vec<Placement>, LayoutError>)
    requires
        valid_contents(contents@),
        valid_config(*config),
        0 < line_spacing_ratio <= crate::MAX_RATIO,
        start_col <= crate::MAX_START,
        start_row <= crate::MAX_START,
    ensures
        r is Ok <==> styles_resolved(contents@, *fonts),
        r matches Ok(out) ==> views_of(out@) == spec_layout(
            contents@,
            *fonts,
            *config,
            start_col as int,
            start_row as int,
            line_spacing_ratio as int,
            align,
        ),
        r is Err ==> r == Err::<Vec<Placement>, LayoutError>(LayoutError::StyleNotFound),
{
    let ghost items = contents@;
    let ghost goal = spec_layout(
        items,
        *fonts,
        *config,
        start_col as int,
        start_row as int,
        line_spacing_ratio as int,
        align,
    );
    let mut out: Vec<Placement> = Vec::new();
    let mut idx: usize = 0;
    let mut row: u64 = start_row;
    while idx < contents.len()
        invariant
            items == contents@,
            valid_contents(items),
            valid_config(*config),
            0 < line_spacing_ratio <= crate::MAX_RATIO,
            start_col <= crate::MAX_START,
            start_row <= crate::MAX_START,
            0 <= idx <= items.len(),
            row as int <= crate::MAX_START + idx * 1_000_000_000,
            forall|k: int|
                0 <= k < idx && #[trigger] items[k] is Span ==> fonts.spec_get(
                    span_of(items[k]).style,
                ) is Some,
            views_of(out@) + layout_from(
                items,
                *fonts,
                *config,
                start_col as int,
                line_spacing_ratio as int,
                align,
                idx as int,
                row as int,
            ) == goal,
        decreases items.len() - idx,
    {
        // Measure pass: find the end of the line and its dominant ratio.
        let mut j: usize = idx;
        let mut max_ratio: u64 = 1000;
        let mut saw_newline: bool = false;
        while j < contents.len() && !saw_newline
            invariant
                items == contents@,
                valid_contents(items),
                idx <= j <= items.len(),
                idx < items.len(),
                1000 <= max_ratio <= crate::MAX_RATIO,
                !saw_newline ==> line_end(items, idx as int) == line_end(items, j as int),
                !saw_newline ==> line_max_ratio(items, idx as int, line_end(items, idx as int))
                    == max_from(items, j as int, line_end(items, idx as int), max_ratio as int),
                saw_newline ==> j as int == line_end(items, idx as int) && max_ratio as int
                    == line_max_ratio(items, idx as int, j as int),
            decreases items.len() - j,
        {
            let ghost e = line_end(items, idx as int);
            match &contents[j] {
                Content::Span(s) => {
                    proof {
                        assert(items[j as int] is Span);
                        assert(valid_span(*s));
                        lemma_line_end_bounds(items, j as int);
                        assert(line_end(items, j as int) == line_end(items, j as int + 1));
                        assert((j as int) < e);
                        assert(max_from(items, j as int, e, max_ratio as int) == max_from(
                            items,
                            j as int + 1,
                            e,
                            if s.size_ratio > max_ratio {
                                s.size_ratio as int
                            } else {
                                max_ratio as int
                            },
                        ));
                    }
                    if s.size_ratio > max_ratio {
                        max_ratio = s.size_ratio;
                    }
                    j = j + 1;
                },
                Content::Newline => {
                    proof {
                        assert(items[j as int] is Newline);
                        assert(line_end(items, j as int) == j as int + 1);
                        assert(e == j as int + 1);
                        assert(max_from(items, j as int + 1, e, max_ratio as int)
                            == max_ratio as int);
                        assert(max_from(items, j as int, e, max_ratio as int) == max_ratio as int);
                    }
                    saw_newline = true;
                    j = j + 1;
                },
            }
        }
        let end: usize = j;
        proof {
            lemma_line_end_bounds(items, idx as int);
            assert(end as int == line_end(items, idx as int));
            assert(max_ratio as int == line_max_ratio(items, idx as int, end as int));
            lemma_max_from_bounds(items, idx as int, end as int, crate::SCALE as int);
        }
        // Place pass: position each span of the line.
        let mut col: u64 = start_col;
        let mut k: usize = idx;
        proof {
            assert(layout_from(
                items,
                *fonts,
                *config,
                start_col as int,
                line_spacing_ratio as int,
                align,
                idx as int,
                row as int,
            ) == place_line(
                items,
                idx as int,
                end as int,
                start_col as int,
                row as int,
                max_ratio as int,
                align,
                *config,
                *fonts,
            ) + layout_from(
                items,
                *fonts,
                *config,
                start_col as int,
                line_spacing_ratio as int,
                align,
                end as int,
                row as int + line_advance(items, idx as int, line_spacing_ratio as int),
            ));
        }
        while k < end
            invariant
                items == contents@,
                valid_contents(items),
                valid_config(*config),
                0 < line_spacing_ratio <= crate::MAX_RATIO,
                start_col <= crate::MAX_START,
                0 <= idx <= k <= end <= items.len(),
                row as int <= crate::MAX_START + idx * 1_000_000_000,
                end as int == line_end(items, idx as int),
                1000 <= max_ratio <= crate::MAX_RATIO,
                max_ratio as int == line_max_ratio(items, idx as int, end as int),
                forall|t: int|
                    idx <= t < end && #[trigger] items[t] is Span ==> span_of(items[t]).size_ratio
                        <= max_ratio,
                col as int <= crate::MAX_START + (k - idx) * 1_000_000_000,
                forall|t: int|
                    0 <= t < k && #[trigger] items[t] is Span ==> fonts.spec_get(
                        span_of(items[t]).style,
                    ) is Some,
                views_of(out@) + place_line(
                    items,
                    k as int,
                    end as int,
                    col as int,
                    row as int,
                    max_ratio as int,
                    align,
                    *config,
                    *fonts,
                ) + layout_from(
                    items,
                    *fonts,
                    *config,
                    start_col as int,
                    line_spacing_ratio as int,
                    align,
                    end as int,
                    row as int + line_advance(items, idx as int, line_spacing_ratio as int),
                ) == goal,
            decreases end - k,
        {
            match &contents[k] {
                Content::Newline => {
                    k = k + 1;
                },
                Content::Span(s) => {
                    assert(items[k as int] is Span);
                    assert(valid_span(*s));
                    assert(s.size_ratio <= max_ratio);
                    let y_offset: u64 = match align {
                        VAlign::Top => 0,
                        VAlign::Middle => (max_ratio - s.size_ratio) / 2,
                        VAlign::Bottom => max_ratio - s.size_ratio,
                    };
                    assert(y_offset as int == offset_of(align, max_ratio as int, s.size_ratio as int));
                    let p = match place_span(s, col, row + y_offset, config, fonts) {
                        Ok(p) => p,
                        Err(e) => {
                            assert(!styles_resolved(items, *fonts)) by {
                                assert(items[k as int] is Span);
                            }
                            return Err(LayoutError::StyleNotFound);
                        },
                    };
                    let ghost out_before = out@;
                    out.push(p);
                    proof {
                        lemma_views_push(out_before, p);
                    }
                    let chars: usize = s.text.as_str().unicode_len();
                    proof {
                        lemma_mul_upper_bound(
                            chars as int,
                            crate::MAX_SPAN_CHARS as int,
                            s.size_ratio as int,
                            crate::MAX_RATIO as int,
                        );
                    }
                    let advance: u64 = (chars as u64) * s.size_ratio;
                    proof {
                        assert(views_of(out@) + place_line(
                            items,
                            k + 1 as int,
                            end as int,
                            col as int + advance_of(*s),
                            row as int,
                            max_ratio as int,
                            align,
                            *config,
                            *fonts,
                        ) + layout_from(
                            items,
                            *fonts,
                            *config,
                            start_col as int,
                            line_spacing_ratio as int,
                            align,
                            end as int,
                            row as int + line_advance(items, idx as int, line_spacing_ratio as int),
                        ) =~= goal);
                    }
                    col = col + advance;
                    k = k + 1;
                },
            }
        }
        // Line advance: move the cursor to the top of the next line.
        proof {
            lemma_mul_upper_bound(
                max_ratio as int,
                crate::MAX_RATIO as int,
                line_spacing_ratio as int,
                crate::MAX_RATIO as int,
            );
            lemma_div_is_ordered(
                max_ratio as int * line_spacing_ratio as int,
                crate::MAX_RATIO as int * crate::MAX_RATIO as int,
                crate::SCALE as int,
            );
            lemma_div_pos_is_pos(max_ratio as int * line_spacing_ratio as int, crate::SCALE as int);
        }
        row = row + max_ratio * line_spacing_ratio / 1000;
        idx = end;
    }
    proof {
        assert(styles_resolved(items, *fonts));
        assert(views_of(out@) =~= goal);
    }
    Ok(out)
}

} // verus!
