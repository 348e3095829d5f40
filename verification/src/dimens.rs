//! Units of the layout engine: terminal cell coordinates, sizes,
//! rectangles, packing directions and percentage size requests.
//!
//! All coordinates are absolute, zero-indexed terminal character cells with
//! the origin at the top left. Percentage arithmetic always rounds toward
//! zero.

use vstd::prelude::*;
use vstd::arithmetic::div_mod::lemma_div_is_ordered;
use vstd::arithmetic::div_mod::lemma_div_multiples_vanish;
use vstd::arithmetic::mul::lemma_mul_inequality;

verus! {

/// An absolute screen coordinate: `col` cells from the left edge, `row`
/// cells from the top edge.
#[derive(Clone, Copy, Debug, PartialEq, Eq, Structural)]
pub struct Position {
    pub col: u16,
    pub row: u16,
}

/// A size in terminal character cells.
#[derive(Clone, Copy, Debug, PartialEq, Eq, Structural)]
pub struct Size {
    pub cols: u16,
    pub rows: u16,
}

/// A rectangle of terminal cells: an origin and a size.
#[derive(Clone, Copy, Debug, PartialEq, Eq, Structural)]
pub struct Rect {
    pub pos: Position,
    pub size: Size,
}

/// The axis along which the children of a box are packed: `Horizontal`
/// children stack left to right, `Vertical` children stack top to bottom.
#[derive(Clone, Copy, Debug, PartialEq, Eq, Structural)]
pub enum Direction {
    Horizontal,
    Vertical,
}

/// A size request expressed as a percentage of the parent rectangle,
/// one percentage per axis. Values above 100 are rejected by the layout
/// engine when the box is opened.
#[derive(Clone, Copy, Debug, PartialEq, Eq, Structural)]
pub struct RequestedSizePercent {
    pub width_pct: u16,
    pub height_pct: u16,
}

/// Both percentages of a size request are within `[0, 100]`.
pub open spec fn req_size_valid(req: RequestedSizePercent) -> bool {
    req.width_pct <= 100 && req.height_pct <= 100
}

/// A rectangle never extends past the last addressable cell: its far edges
/// still fit in a `u16` coordinate.
pub open spec fn rect_fits(r: Rect) -> bool {
    &&& r.pos.col + r.size.cols <= u16::MAX
    &&& r.pos.row + r.size.rows <= u16::MAX
}

/// `inner` lies fully inside `outer` on both axes.
pub open spec fn rect_contains(outer: Rect, inner: Rect) -> bool {
    &&& outer.pos.col <= inner.pos.col
    &&& outer.pos.row <= inner.pos.row
    &&& inner.pos.col + inner.size.cols <= outer.pos.col + outer.size.cols
    &&& inner.pos.row + inner.size.rows <= outer.pos.row + outer.size.rows
}

/// Containment of rectangles is transitive.
pub proof fn lemma_rect_contains_trans(a: Rect, b: Rect, c: Rect)
    requires
        rect_contains(a, b),
        rect_contains(b, c),
    ensures
        rect_contains(a, c),
{
}

/// `pct` percent of `extent`, rounded toward zero.
pub open spec fn spec_portion(extent: u16, pct: u16) -> int {
    (extent * pct) / 100
}

/// The portion of an extent never exceeds the extent itself while the
/// percentage stays within 100, and it grows with the percentage.
pub proof fn lemma_portion_bounds(extent: u16, lo_pct: u16, hi_pct: u16)
    requires
        lo_pct <= hi_pct <= 100,
    ensures
        0 <= spec_portion(extent, lo_pct) <= spec_portion(extent, hi_pct) <= extent,
{
    lemma_mul_inequality(lo_pct as int, hi_pct as int, extent as int);
    lemma_mul_inequality(hi_pct as int, 100, extent as int);
    lemma_div_is_ordered(extent * lo_pct, extent * hi_pct, 100);
    lemma_div_is_ordered(extent * hi_pct, extent * 100, 100);
    lemma_div_multiples_vanish(extent as int, 100);
}

/// `pct` percent of `extent` in cells, rounded toward zero.
pub fn portion(extent: u16, pct: u16) -> (r: u16)
    requires
        pct <= 100,
    ensures
        r == spec_portion(extent, pct),
        r <= extent,
{
    proof {
        lemma_portion_bounds(extent, pct, pct);
    }
    (((extent as u32) * (pct as u32)) / 100) as u16
}

/// Saturating addition on cell coordinates.
pub open spec fn spec_sat_add(a: u16, b: u16) -> u16 {
    if a + b > u16::MAX {
        u16::MAX
    } else {
        (a + b) as u16
    }
}

/// Adds two cell counts, clamping at the largest addressable coordinate.
pub fn sat_add(a: u16, b: u16) -> (r: u16)
    ensures
        r == spec_sat_add(a, b),
{
    let wide: u32 = (a as u32) + (b as u32);
    if wide > (u16::MAX as u32) {
        u16::MAX
    } else {
        wide as u16
    }
}

/// `a - b`, clamped at zero, on cell counts.
pub fn sub_clamped(a: u16, b: u16) -> (r: u16)
    ensures
        r == spec_sub_clamped(a, b as int),
{
    if a >= b {
        a - b
    } else {
        0
    }
}

/// Shrinking a rectangle by `margin` cells on every edge, clamping the size
/// at zero: the origin moves in by at most the available extent and the
/// size loses two margins per axis.
pub open spec fn spec_inset(r: Rect, margin: u16) -> Rect {
    Rect {
        pos: Position {
            col: (r.pos.col + spec_min_u16(margin, r.size.cols)) as u16,
            row: (r.pos.row + spec_min_u16(margin, r.size.rows)) as u16,
        },
        size: Size {
            cols: spec_sub_clamped(r.size.cols, 2 * margin as int),
            rows: spec_sub_clamped(r.size.rows, 2 * margin as int),
        },
    }
}

/// The smaller of two cell counts.
pub open spec fn spec_min_u16(a: u16, b: u16) -> u16 {
    if a <= b {
        a
    } else {
        b
    }
}

/// `a - b`, clamped at zero.
pub open spec fn spec_sub_clamped(a: u16, b: int) -> u16 {
    if a >= b {
        (a - b) as u16
    } else {
        0
    }
}

/// An inset rectangle stays inside the original and still fits the screen.
pub proof fn lemma_inset_contained(r: Rect, margin: u16)
    requires
        rect_fits(r),
    ensures
        rect_contains(r, spec_inset(r, margin)),
        rect_fits(spec_inset(r, margin)),
{
}

/// Shrinks a rectangle by `margin` cells on every edge, clamping at zero.
pub fn inset_rect(r: Rect, margin: u16) -> (res: Rect)
    requires
        rect_fits(r),
    ensures
        res == spec_inset(r, margin),
        rect_contains(r, res),
        rect_fits(res),
{
    proof {
        lemma_inset_contained(r, margin);
    }
    let min_c: u16 = if margin <= r.size.cols { margin } else { r.size.cols };
    let min_r: u16 = if margin <= r.size.rows { margin } else { r.size.rows };
    let twice: u32 = 2 * (margin as u32);
    let cols: u16 = if (r.size.cols as u32) >= twice {
        ((r.size.cols as u32) - twice) as u16
    } else {
        0
    };
    let rows: u16 = if (r.size.rows as u32) >= twice {
        ((r.size.rows as u32) - twice) as u16
    } else {
        0
    };
    Rect {
        pos: Position { col: r.pos.col + min_c, row: r.pos.row + min_r },
        size: Size { cols, rows },
    }
}

} // verus!
