//! Collision resolution between the moving ball and a static rectangle:
//! reflect the appropriate velocity axis and reposition the ball flush
//! against the struck face.

use vstd::prelude::*;
use crate::geom::{iabs, imax, rects_overlap, struck_side, wf_rect, Rect, Side};
use crate::{COLLISION_EPSILON, GEOM_MAX, POS_MAX, VEL_MAX};

verus! {

/// The ball: an axis-aligned rectangle with a velocity vector in
/// milli-pixels per millisecond.
#[derive(Clone, Copy, PartialEq, Eq, Structural, Debug)]
pub struct Ball {
    pub rect: Rect,
    pub vx: i64,
    pub vy: i64,
}

/// The ball's extents, position and velocity are within the simulation's
/// arithmetic range.
pub open spec fn wf_ball(b: Ball) -> bool {
    &&& wf_rect(b.rect)
    &&& iabs(b.vx as int) <= VEL_MAX
    &&& iabs(b.vy as int) <= VEL_MAX
}

/// The ball after its velocity is reflected off the given face: `Left` and
/// `Right` negate the horizontal component, `Top` and `Bottom` the vertical.
pub open spec fn reflected(b: Ball, side: Side) -> Ball {
    match side {
        Side::Left | Side::Right => Ball { vx: (-(b.vx as int)) as i64, ..b },
        Side::Top | Side::Bottom => Ball { vy: (-(b.vy as int)) as i64, ..b },
    }
}

/// The ball moved flush against the struck face of `other`, offset outward
/// by [`COLLISION_EPSILON`] so floating residue of a frame cannot cause an
/// immediate re-collision.
pub open spec fn flush_against(b: Ball, other: Rect, side: Side) -> Ball {
    match side {
        Side::Left => Ball {
            rect: Rect {
                x: (other.x - other.hw - b.rect.hw - COLLISION_EPSILON) as i64,
                ..b.rect
            },
            ..b
        },
        Side::Right => Ball {
            rect: Rect {
                x: (other.x + other.hw + b.rect.hw + COLLISION_EPSILON) as i64,
                ..b.rect
            },
            ..b
        },
        Side::Top => Ball {
            rect: Rect {
                y: (other.y + other.hh + b.rect.hh + COLLISION_EPSILON) as i64,
                ..b.rect
            },
            ..b
        },
        Side::Bottom => Ball {
            rect: Rect {
                y: (other.y - other.hh - b.rect.hh - COLLISION_EPSILON) as i64,
                ..b.rect
            },
            ..b
        },
    }
}

/// One resolution step: if the ball overlaps `other`, reflect its velocity
/// off the struck face and reposition it flush against that face; otherwise
/// leave it unchanged.
pub open spec fn resolved(b: Ball, other: Rect) -> Ball {
    if rects_overlap(b.rect, other) {
        let side = struck_side(b.rect, other);
        flush_against(reflected(b, side), other, side)
    } else {
        b
    }
}

/// Detects a collision between the ball and a static rectangle, reflecting
/// the velocity and repositioning the ball on a hit; returns whether a
/// collision occurred, for call-site branching such as brick damage.
pub fn detect_collision(ball: &mut Ball, other: &Rect) -> (hit: bool)
    requires
        wf_ball(*old(ball)),
        wf_rect(*other),
        iabs(other.x as int) <= POS_MAX,
        iabs(other.y as int) <= POS_MAX,
    ensures
        hit == rects_overlap(old(ball).rect, *other),
        *final(ball) == resolved(*old(ball), *other),
{
    let side = crate::geom::overlap(&ball.rect, other);
    match side {
        None => false,
        Some(side) => {
            match side {
                Side::Left | Side::Right => {
                    ball.vx = -ball.vx;
                },
                Side::Top | Side::Bottom => {
                    ball.vy = -ball.vy;
                },
            }
            match side {
                Side::Left => {
                    ball.rect.x = other.x - other.hw - ball.rect.hw - COLLISION_EPSILON;
                },
                Side::Right => {
                    ball.rect.x = other.x + other.hw + ball.rect.hw + COLLISION_EPSILON;
                },
                Side::Top => {
                    ball.rect.y = other.y + other.hh + ball.rect.hh + COLLISION_EPSILON;
                },
                Side::Bottom => {
                    ball.rect.y = other.y - other.hh - ball.rect.hh - COLLISION_EPSILON;
                },
            }
            true
        },
    }
}

/// Resolution never changes the ball's extents, and either keeps a velocity
/// component or flips its sign; a resolved ball against an obstacle whose
/// position is within `POS_MAX` stays within the simulation range.
pub proof fn lemma_resolved_wf(b: Ball, other: Rect)
    requires
        wf_ball(b),
        wf_rect(other),
        iabs(other.x as int) <= POS_MAX,
        iabs(other.y as int) <= POS_MAX,
    ensures
        wf_ball(resolved(b, other)),
        resolved(b, other).rect.hw == b.rect.hw,
        resolved(b, other).rect.hh == b.rect.hh,
        iabs(resolved(b, other).vx as int) == iabs(b.vx as int),
        iabs(resolved(b, other).vy as int) == iabs(b.vy as int),
        iabs(resolved(b, other).rect.x as int) <= imax(
            iabs(b.rect.x as int),
            POS_MAX + 2 * GEOM_MAX + COLLISION_EPSILON,
        ),
        iabs(resolved(b, other).rect.y as int) <= imax(
            iabs(b.rect.y as int),
            POS_MAX + 2 * GEOM_MAX + COLLISION_EPSILON,
        ),
{
}

/// Repositioning separates the boxes: after a resolved collision the ball
/// no longer overlaps the struck rectangle, so the same pair cannot
/// re-collide before the ball moves again.
pub proof fn lemma_resolution_separates(b: Ball, other: Rect)
    requires
        wf_ball(b),
        wf_rect(other),
        iabs(other.x as int) <= POS_MAX,
        iabs(other.y as int) <= POS_MAX,
        rects_overlap(b.rect, other),
    ensures
        !rects_overlap(resolved(b, other).rect, other),
{
}

/// Reflection is energy-preserving: after any resolution the ball's speed
/// magnitude (the square root of `vx*vx + vy*vy`) equals the magnitude
/// before it, because the squared components are unchanged.
pub proof fn lemma_resolution_preserves_speed(b: Ball, other: Rect)
    requires
        wf_ball(b),
    ensures
        resolved(b, other).vx * resolved(b, other).vx + resolved(b, other).vy * resolved(
            b,
            other,
        ).vy == b.vx * b.vx + b.vy * b.vy,
{
    let r = resolved(b, other);
    assert(r.vx == b.vx || r.vx as int == -(b.vx as int));
    assert(r.vy == b.vy || r.vy as int == -(b.vy as int));
    assert(r.vx * r.vx == b.vx * b.vx) by (nonlinear_arith)
        requires
            r.vx == b.vx || r.vx as int == -(b.vx as int),
    ;
    assert(r.vy * r.vy == b.vy * b.vy) by (nonlinear_arith)
        requires
            r.vy == b.vy || r.vy as int == -(b.vy as int),
    ;
}

/// A collision classified `Left` or `Right` flips the sign of `vx` and
/// leaves `vy` unchanged; one classified `Top` or `Bottom` flips `vy` and
/// leaves `vx` unchanged.
pub proof fn lemma_resolution_reflects(b: Ball, other: Rect)
    requires
        wf_ball(b),
        rects_overlap(b.rect, other),
    ensures
        (struck_side(b.rect, other) is Left || struck_side(b.rect, other) is Right) ==> {
            &&& resolved(b, other).vx as int == -(b.vx as int)
            &&& resolved(b, other).vy == b.vy
        },
        (struck_side(b.rect, other) is Top || struck_side(b.rect, other) is Bottom) ==> {
            &&& resolved(b, other).vy as int == -(b.vy as int)
            &&& resolved(b, other).vx == b.vx
        },
{
}

} // verus!
