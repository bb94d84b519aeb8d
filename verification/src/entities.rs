//! The simulation's entities besides the ball: paddle, walls, bricks, the
//! boost HUD, and the plain values the host hands in each frame.

use vstd::prelude::*;
use crate::geom::{iabs, wf_rect, Rect};
use crate::{BRICK_HEALTH_MAX, POS_MAX, WINDOW_MAX};

verus! {

/// The player's paddle.
#[derive(Clone, Copy, PartialEq, Eq, Structural, Debug)]
pub struct Paddle {
    pub rect: Rect,
}

/// One of the three static walls around the arena.  The slot identifies
/// which: 0 is left, 1 is right, 2 is top.
#[derive(Clone, Copy, PartialEq, Eq, Structural, Debug)]
pub struct Wall {
    pub rect: Rect,
    pub slot: u32,
}

/// A destructible brick with an integer health counter.
#[derive(Clone, Copy, PartialEq, Eq, Structural, Debug)]
pub struct Brick {
    pub rect: Rect,
    pub health: u32,
}

/// The boost HUD: a foreground bar whose width projects the meter, over a
/// fixed-size background.
#[derive(Clone, Copy, PartialEq, Eq, Structural, Debug)]
pub struct Hud {
    pub bar: Rect,
    pub background: Rect,
}

/// The held keys of one frame: the two move keys and the boost modifier
/// (either of the two equivalent modifier keys, collapsed by the host).
#[derive(Clone, Copy, PartialEq, Eq, Structural, Debug)]
pub struct Input {
    pub left: bool,
    pub right: bool,
    pub boost: bool,
}

/// A window-resize notification, in milli-pixels.
#[derive(Clone, Copy, PartialEq, Eq, Structural, Debug)]
pub struct ResizeEvent {
    pub width: u64,
    pub height: u64,
}

/// An entity rectangle at rest: well formed and positioned within the
/// obstacle bound.
pub open spec fn wf_obstacle(r: Rect) -> bool {
    &&& wf_rect(r)
    &&& iabs(r.x as int) <= POS_MAX
    &&& iabs(r.y as int) <= POS_MAX
}

/// A live brick: a well-placed rectangle and health in `[1, BRICK_HEALTH_MAX]`.
pub open spec fn wf_brick(b: Brick) -> bool {
    &&& wf_obstacle(b.rect)
    &&& 1 <= b.health <= BRICK_HEALTH_MAX
}

/// A resize event the arithmetic can take.
pub open spec fn wf_event(e: ResizeEvent) -> bool {
    &&& e.width <= WINDOW_MAX
    &&& e.height <= WINDOW_MAX
}

/// A brick's health after one resolved collision: `None` when the brick is
/// destroyed and removed from the world, else one point less.
pub open spec fn brick_after_hit(health: u32) -> Option<u32> {
    if health <= 1 {
        None
    } else {
        Some((health - 1) as u32)
    }
}

/// A brick's health after `n` resolved collisions, `None` once destroyed.
pub open spec fn brick_after_hits(health: u32, n: nat) -> Option<u32>
    decreases n,
{
    if n == 0 {
        Some(health)
    } else {
        match brick_after_hits(health, (n - 1) as nat) {
            None => None,
            Some(h) => brick_after_hit(h),
        }
    }
}

/// A brick with health `h` takes exactly `h` resolved collisions to be
/// destroyed: after fewer its health is reduced by exactly that count, and
/// from the `h`-th on it is gone for good.
pub proof fn lemma_brick_takes_health_hits(health: u32, n: nat)
    requires
        1 <= health,
    ensures
        n < health ==> brick_after_hits(health, n) == Some((health - n) as u32),
        n >= health ==> brick_after_hits(health, n) is None,
    decreases n,
{
    if n > 0 {
        lemma_brick_takes_health_hits(health, (n - 1) as nat);
    }
}

/// The index into the health-to-colour lookup for a live brick: a fresh
/// brick shows the first colour, the lowest health the last.
pub open spec fn spec_color_index(health: u32) -> int {
    BRICK_HEALTH_MAX - health
}

/// The fixed health-to-colour lookup, from undamaged white down to the
/// low-health red tint.
pub open spec fn spec_color(health: u32) -> (u8, u8, u8) {
    if health >= 3 {
        (255u8, 255u8, 255u8)
    } else if health == 2 {
        (255u8, 122u8, 0u8)
    } else {
        (255u8, 0u8, 0u8)
    }
}

/// The colour-lookup index a live brick is shown with.
pub fn brick_color_index(health: u32) -> (idx: u32)
    requires
        1 <= health <= BRICK_HEALTH_MAX,
    ensures
        idx == spec_color_index(health),
{
    BRICK_HEALTH_MAX - health
}

/// The RGB tint a live brick is shown with, by its health.
pub fn brick_color(health: u32) -> (rgb: (u8, u8, u8))
    requires
        1 <= health <= BRICK_HEALTH_MAX,
    ensures
        rgb == spec_color(health),
{
    if health >= 3 {
        (255, 255, 255)
    } else if health == 2 {
        (255, 122, 0)
    } else {
        (255, 0, 0)
    }
}

} // verus!
