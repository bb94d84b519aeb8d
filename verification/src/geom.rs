//! Axis-aligned bounding-box overlap test and side classification.

use vstd::prelude::*;
use crate::{GEOM_MAX, SIM_RANGE};

verus! {

/// Which face of the struck rectangle the moving box hit.
#[derive(Clone, Copy, PartialEq, Eq, Structural, Debug)]
pub enum Side {
    Left,
    Right,
    Top,
    Bottom,
}

/// An axis-aligned rectangle: centre position and half-extents, in
/// milli-pixels.
#[derive(Clone, Copy, PartialEq, Eq, Structural, Debug)]
pub struct Rect {
    pub x: i64,
    pub y: i64,
    pub hw: i64,
    pub hh: i64,
}

/// Absolute value of a mathematical integer.
pub open spec fn iabs(v: int) -> int {
    if v < 0 {
        -v
    } else {
        v
    }
}

/// The larger of two mathematical integers.
pub open spec fn imax(a: int, b: int) -> int {
    if a >= b {
        a
    } else {
        b
    }
}

/// A product of a bounded factor and a bounded non-negative factor is
/// bounded by the product of the bounds.
pub proof fn lemma_mul_bounds(v: int, d: int, vb: int, db: int)
    requires
        -vb <= v <= vb,
        0 <= d <= db,
    ensures
        -(vb * db) <= v * d <= vb * db,
{
    assert(-(vb * db) <= v * d <= vb * db) by (nonlinear_arith)
        requires
            -vb <= v <= vb,
            0 <= d <= db,
    ;
}

/// Clamp a mathematical integer into `[lo, hi]`.
pub open spec fn iclamp(v: int, lo: int, hi: int) -> int {
    if v < lo {
        lo
    } else if v > hi {
        hi
    } else {
        v
    }
}

/// Half-extents are non-negative and small enough for exact arithmetic.
pub open spec fn wf_size(r: Rect) -> bool {
    &&& 0 <= r.hw <= GEOM_MAX
    &&& 0 <= r.hh <= GEOM_MAX
}

/// The rectangle's centre lies within the simulation's arithmetic range.
pub open spec fn in_range(r: Rect) -> bool {
    &&& iabs(r.x as int) <= SIM_RANGE
    &&& iabs(r.y as int) <= SIM_RANGE
}

/// A rectangle whose fields the collision arithmetic can handle.
pub open spec fn wf_rect(r: Rect) -> bool {
    wf_size(r) && in_range(r)
}

/// Two axis-aligned rectangles overlap iff their centre distance on each
/// axis is less than the sum of their half-extents on that axis.
pub open spec fn rects_overlap(a: Rect, b: Rect) -> bool {
    &&& iabs(a.x - b.x) < a.hw + b.hw
    &&& iabs(a.y - b.y) < a.hh + b.hh
}

/// How deeply the rectangles interpenetrate on the horizontal axis.
pub open spec fn x_penetration(a: Rect, b: Rect) -> int {
    (a.hw + b.hw) - iabs(a.x - b.x)
}

/// How deeply the rectangles interpenetrate on the vertical axis.
pub open spec fn y_penetration(a: Rect, b: Rect) -> int {
    (a.hh + b.hh) - iabs(a.y - b.y)
}

/// The face of `b` that the moving box `a` is judged to have struck: the
/// axis with the smaller penetration depth wins, and a tie favours
/// horizontal resolution so corner hits resolve consistently.
pub open spec fn struck_side(a: Rect, b: Rect) -> Side {
    if x_penetration(a, b) <= y_penetration(a, b) {
        if a.x < b.x {
            Side::Left
        } else {
            Side::Right
        }
    } else {
        if a.y < b.y {
            Side::Bottom
        } else {
            Side::Top
        }
    }
}

/// Overlap test and side classification between two rectangles: `None` when
/// the boxes do not overlap, otherwise the face of `b` that `a` struck.
pub fn overlap(a: &Rect, b: &Rect) -> (r: Option<Side>)
    requires
        wf_rect(*a),
        wf_rect(*b),
    ensures
        r == (if rects_overlap(*a, *b) {
            Some(struck_side(*a, *b))
        } else {
            None::<Side>
        }),
{
    let dx: i64 = a.x - b.x;
    let dy: i64 = a.y - b.y;
    let adx: i64 = if dx < 0 { -dx } else { dx };
    let ady: i64 = if dy < 0 { -dy } else { dy };
    if adx < a.hw + b.hw && ady < a.hh + b.hh {
        let px: i64 = (a.hw + b.hw) - adx;
        let py: i64 = (a.hh + b.hh) - ady;
        if px <= py {
            if a.x < b.x {
                Some(Side::Left)
            } else {
                Some(Side::Right)
            }
        } else {
            if a.y < b.y {
                Some(Side::Bottom)
            } else {
                Some(Side::Top)
            }
        }
    } else {
        None
    }
}

} // verus!
