//! The grid coordinate model: the page is a grid of square cells of one
//! base size each; grid positions count cells from the page's top-left
//! corner, while the page's native coordinates measure points from its
//! bottom-left corner.
//!
//! Grid coordinates are in thousandths of a cell; page coordinates are
//! in thousandths of a point.

use vstd::prelude::*;

use vstd::arithmetic::div_mod::lemma_div_nonincreasing;
use vstd::arithmetic::div_mod::lemma_div_pos_is_pos;
use vstd::arithmetic::mul::lemma_mul_upper_bound;

verus! {

/// Horizontal page coordinate of a grid column: `col * base / SCALE`.
pub open spec fn spec_x(col: int, base: int) -> int {
    col * base / (crate::SCALE as int)
}

/// Distance in points from the page's top edge down to a grid row:
/// `row * base / SCALE`.
pub open spec fn spec_y_top(row: int, base: int) -> int {
    row * base / (crate::SCALE as int)
}

/// Transform a grid position into the page's native bottom-left-origin
/// point system: `x = col * base`, and the vertical coordinate is the
/// page height minus the distance of the row from the top.
pub fn grid_to_page(col: u64, row: u64, page_height: u64, base_size: u64) -> (p: (u64, i64))
    requires
        col <= crate::CURSOR_LIMIT + crate::MAX_RATIO,
        row <= crate::CURSOR_LIMIT + crate::MAX_RATIO,
        base_size <= crate::MAX_BASE,
        page_height <= crate::MAX_PAGE,
    ensures
        p.0 == spec_x(col as int, base_size as int),
        p.1 == page_height - spec_y_top(row as int, base_size as int),
{
    proof {
        lemma_mul_upper_bound(
            col as int,
            (crate::CURSOR_LIMIT + crate::MAX_RATIO) as int,
            base_size as int,
            crate::MAX_BASE as int,
        );
        lemma_mul_upper_bound(
            row as int,
            (crate::CURSOR_LIMIT + crate::MAX_RATIO) as int,
            base_size as int,
            crate::MAX_BASE as int,
        );
        lemma_div_nonincreasing(col as int * base_size as int, crate::SCALE as int);
        lemma_div_nonincreasing(row as int * base_size as int, crate::SCALE as int);
        lemma_div_pos_is_pos(col as int * base_size as int, crate::SCALE as int);
        lemma_div_pos_is_pos(row as int * base_size as int, crate::SCALE as int);
    }
    let x: u64 = col * base_size / 1000;
    let y_from_top: u64 = row * base_size / 1000;
    let y_from_bottom: i64 = page_height as i64 - y_from_top as i64;
    (x, y_from_bottom)
}

} // verus!
