//! The per-frame systems: paddle movement with boost drain, ball movement,
//! the collision sweeps, the boost HUD projection, boost recharge and
//! window-resize relayout.

use vstd::prelude::*;
use crate::boost::{tick_step, wf_timer, BoostTimer};
use crate::collision::{
    detect_collision, lemma_resolution_preserves_speed, lemma_resolved_wf, resolved, wf_ball, Ball,
};
use crate::entities::{wf_brick, wf_event, wf_obstacle, Brick, Hud, Input, Paddle, ResizeEvent, Wall};
use crate::geom::{iabs, iclamp, imax, lemma_mul_bounds, rects_overlap, Rect};
use crate::state::{boost_step, wf_state, BoostOp, State};
use crate::{
    BOOST_BAR_HALF_H, BOOST_BAR_HALF_W, BOOST_HUD_INSET, BOOST_MAX, COLLISION_EPSILON, DT_MAX,
    GEOM_MAX, PADDLE_SPEED, POS_MAX, VEL_MAX, WALL_HALF_THICKNESS,
};

verus! {

/// The movement direction the held keys ask for: the two move keys cancel
/// when both are down.
pub open spec fn move_direction(input: Input) -> int {
    (if input.right {
        1int
    } else {
        0int
    }) - (if input.left {
        1int
    } else {
        0int
    })
}

/// Boost is engaged while the player both moves and holds the modifier.
pub open spec fn boost_engaged(input: Input) -> bool {
    move_direction(input) != 0 && input.boost
}

/// How far from centre the paddle may go: the playable half-width minus the
/// paddle's half-width, floored at zero for the degenerate case of an arena
/// narrower than the paddle.
pub open spec fn paddle_bound(window_width: u64, paddle: Paddle) -> int {
    imax(window_width as int / 2 - paddle.rect.hw, 0)
}

/// One paddle-movement frame: effective speed is the base speed, doubled
/// when boost is engaged and the meter is strictly positive; while engaged
/// the meter drains (clamped at empty) and the recharge timer resets; the
/// position integrates by `direction * speed * dt` and clamps into the
/// arena.
pub open spec fn paddle_step(p: Paddle, s: State, t: BoostTimer, input: Input, dt: u64) -> (
    Paddle,
    State,
    BoostTimer,
) {
    let speed: int = if boost_engaged(input) && s.boost > 0 {
        2 * PADDLE_SPEED
    } else {
        PADDLE_SPEED as int
    };
    let s1 = if boost_engaged(input) {
        State { boost: boost_step(s.boost, BoostOp::Drain { dt }), ..s }
    } else {
        s
    };
    let t1 = if boost_engaged(input) {
        BoostTimer { elapsed: 0, period: t.period }
    } else {
        t
    };
    let bound = paddle_bound(s.window_width, p);
    let x1 = iclamp(p.rect.x + move_direction(input) * speed * dt, -bound, bound);
    (Paddle { rect: Rect { x: x1 as i64, ..p.rect } }, s1, t1)
}

/// Multiplying by a direction in `{-1, 0, 1}` keeps, zeroes or negates a
/// product.
proof fn lemma_signed_scale(dir: int, spd: int, dt: int)
    ensures
        dir == 0 ==> dir * spd * dt == 0,
        dir == 1 ==> dir * spd * dt == spd * dt,
        dir == -1 ==> dir * spd * dt == -(spd * dt),
{
    assert(dir == 0 ==> dir * spd * dt == 0) by (nonlinear_arith);
    assert(dir == 1 ==> dir * spd * dt == spd * dt) by (nonlinear_arith);
    assert(dir == -1 ==> dir * spd * dt == -(spd * dt)) by (nonlinear_arith);
}

/// System for moving the paddle in response to player input.
///
/// The boost-speed doubling gates on a strictly positive meter, and the
/// drain clamps at empty, so the meter never leaves `[0, BOOST_MAX]` and an
/// empty meter grants no doubled frame.
pub fn paddle_movement(
    paddle: &mut Paddle,
    state: &mut State,
    timer: &mut BoostTimer,
    input: &Input,
    dt: u64,
)
    requires
        wf_obstacle(old(paddle).rect),
        wf_state(*old(state)),
        wf_timer(*old(timer)),
        dt <= DT_MAX,
    ensures
        (*final(paddle), *final(state), *final(timer)) == paddle_step(
            *old(paddle),
            *old(state),
            *old(timer),
            *input,
            dt,
        ),
        wf_obstacle(final(paddle).rect),
        wf_state(*final(state)),
        wf_timer(*final(timer)),
        iabs(final(paddle).rect.x as int) <= paddle_bound(old(state).window_width, *old(paddle)),
{
    let mut direction: i64 = 0;
    if input.left {
        direction = direction - 1;
    }
    if input.right {
        direction = direction + 1;
    }

    let engaged: bool = direction != 0 && input.boost;
    let boosted: bool = engaged && state.boost > 0;
    if engaged {
        state.drain_boost(dt);
        timer.reset();
    }

    let speed: i64 = if boosted {
        2 * PADDLE_SPEED
    } else {
        PADDLE_SPEED
    };
    proof {
        lemma_mul_bounds(speed as int, dt as int, 2 * PADDLE_SPEED, DT_MAX as int);
        lemma_signed_scale(move_direction(*input), speed as int, dt as int);
    }
    let step: i64 = speed * (dt as i64);
    let moved: i64 = if direction == 1 {
        paddle.rect.x + step
    } else if direction == -1 {
        paddle.rect.x - step
    } else {
        paddle.rect.x
    };

    let half: i64 = (state.window_width / 2) as i64;
    let unfloored: i64 = half - paddle.rect.hw;
    let bound: i64 = if unfloored < 0 {
        0
    } else {
        unfloored
    };
    paddle.rect.x = if moved < -bound {
        -bound
    } else if moved > bound {
        bound
    } else {
        moved
    };
}

/// The ball's position integrated by its velocity over one frame.
pub open spec fn ball_moved(b: Ball, dt: u64) -> Ball {
    Ball {
        rect: Rect {
            x: (b.rect.x + b.vx * dt) as i64,
            y: (b.rect.y + b.vy * dt) as i64,
            ..b.rect
        },
        ..b
    }
}

/// System for updating the ball's position: explicit Euler integration,
/// `position += velocity * dt`.
pub fn ball_movement(ball: &mut Ball, dt: u64)
    requires
        wf_ball(*old(ball)),
        iabs(old(ball).rect.x as int) <= POS_MAX,
        iabs(old(ball).rect.y as int) <= POS_MAX,
        dt <= DT_MAX,
    ensures
        *final(ball) == ball_moved(*old(ball), dt),
        wf_ball(*final(ball)),
        iabs(final(ball).rect.x as int) <= POS_MAX + VEL_MAX * DT_MAX,
        iabs(final(ball).rect.y as int) <= POS_MAX + VEL_MAX * DT_MAX,
{
    proof {
        lemma_mul_bounds(ball.vx as int, dt as int, VEL_MAX as int, DT_MAX as int);
        lemma_mul_bounds(ball.vy as int, dt as int, VEL_MAX as int, DT_MAX as int);
    }
    ball.rect.x = ball.rect.x + ball.vx * (dt as i64);
    ball.rect.y = ball.rect.y + ball.vy * (dt as i64);
}

/// The rectangles of a sequence of walls, in order.
pub open spec fn wall_rects(walls: Seq<Wall>) -> Seq<Rect> {
    Seq::new(walls.len(), |i: int| walls[i].rect)
}

/// The ball after resolving against each obstacle in order.  Consecutive
/// resolutions within one sweep operate on the ball already updated by the
/// previous one.
pub open spec fn sweep_obstacles(b: Ball, obs: Seq<Rect>) -> Ball
    decreases obs.len(),
{
    if obs.len() == 0 {
        b
    } else {
        resolved(sweep_obstacles(b, obs.drop_last()), obs.last())
    }
}

/// A sweep never changes the ball's extents, keeps each velocity
/// component's magnitude, and leaves the ball within the simulation range.
pub proof fn lemma_sweep_obstacles_wf(b: Ball, obs: Seq<Rect>)
    requires
        wf_ball(b),
        forall|i: int| 0 <= i < obs.len() ==> wf_obstacle(#[trigger] obs[i]),
    ensures
        wf_ball(sweep_obstacles(b, obs)),
        sweep_obstacles(b, obs).rect.hw == b.rect.hw,
        sweep_obstacles(b, obs).rect.hh == b.rect.hh,
        iabs(sweep_obstacles(b, obs).vx as int) == iabs(b.vx as int),
        iabs(sweep_obstacles(b, obs).vy as int) == iabs(b.vy as int),
        iabs(sweep_obstacles(b, obs).rect.x as int) <= imax(
            iabs(b.rect.x as int),
            POS_MAX + 2 * GEOM_MAX + COLLISION_EPSILON,
        ),
        iabs(sweep_obstacles(b, obs).rect.y as int) <= imax(
            iabs(b.rect.y as int),
            POS_MAX + 2 * GEOM_MAX + COLLISION_EPSILON,
        ),
    decreases obs.len(),
{
    if obs.len() > 0 {
        lemma_sweep_obstacles_wf(b, obs.drop_last());
        lemma_resolved_wf(sweep_obstacles(b, obs.drop_last()), obs.last());
    }
}

/// A whole sweep is energy-preserving: the ball's speed magnitude after
/// resolving against any sequence of obstacles equals the magnitude before,
/// since every single resolution preserves it.
pub proof fn lemma_sweep_preserves_speed(b: Ball, obs: Seq<Rect>)
    requires
        wf_ball(b),
        forall|i: int| 0 <= i < obs.len() ==> wf_obstacle(#[trigger] obs[i]),
    ensures
        sweep_obstacles(b, obs).vx * sweep_obstacles(b, obs).vx + sweep_obstacles(b, obs).vy
            * sweep_obstacles(b, obs).vy == b.vx * b.vx + b.vy * b.vy,
    decreases obs.len(),
{
    if obs.len() > 0 {
        lemma_sweep_preserves_speed(b, obs.drop_last());
        lemma_sweep_obstacles_wf(b, obs.drop_last());
        lemma_resolution_preserves_speed(sweep_obstacles(b, obs.drop_last()), obs.last());
    }
}

/// System for handling collisions between the ball and the static geometry
/// of the scene: each wall in slot order, then the paddle.
pub fn general_collision(ball: &mut Ball, walls: &Vec<Wall>, paddle: &Paddle)
    requires
        wf_ball(*old(ball)),
        forall|i: int| 0 <= i < walls@.len() ==> wf_obstacle(#[trigger] walls@[i].rect),
        wf_obstacle(paddle.rect),
    ensures
        *final(ball) == sweep_obstacles(*old(ball), wall_rects(walls@).push(paddle.rect)),
        wf_ball(*final(ball)),
        final(ball).rect.hw == old(ball).rect.hw,
        final(ball).rect.hh == old(ball).rect.hh,
        iabs(final(ball).rect.x as int) <= imax(
            iabs(old(ball).rect.x as int),
            POS_MAX + 2 * GEOM_MAX + COLLISION_EPSILON,
        ),
        iabs(final(ball).rect.y as int) <= imax(
            iabs(old(ball).rect.y as int),
            POS_MAX + 2 * GEOM_MAX + COLLISION_EPSILON,
        ),
{
    let ghost rects = wall_rects(walls@);
    let mut i: usize = 0;
    while i < walls.len()
        invariant
            0 <= i <= walls@.len(),
            rects == wall_rects(walls@),
            wf_ball(*old(ball)),
            forall|j: int| 0 <= j < walls@.len() ==> wf_obstacle(#[trigger] walls@[j].rect),
            *ball == sweep_obstacles(*old(ball), rects.take(i as int)),
            wf_ball(*ball),
        decreases walls@.len() - i,
    {
        let wall_rect = walls[i].rect;
        detect_collision(ball, &wall_rect);
        proof {
            assert(rects.take(i + 1).drop_last() =~= rects.take(i as int));
            assert(rects.take(i + 1).last() == walls@[i as int].rect);
            lemma_resolved_wf(sweep_obstacles(*old(ball), rects.take(i as int)), wall_rect);
        }
        i = i + 1;
    }
    proof {
        assert(rects.take(walls@.len() as int) =~= rects);
    }
    detect_collision(ball, &paddle.rect);
    proof {
        assert(rects.push(paddle.rect).drop_last() =~= rects);
        lemma_sweep_obstacles_wf(*old(ball), rects.push(paddle.rect));
        assert(forall|j: int|
            0 <= j < rects.push(paddle.rect).len() ==> wf_obstacle(
                #[trigger] rects.push(paddle.rect)[j],
            ));
    }
}

/// The ball and the surviving bricks after one frame's brick sweep, in
/// brick order: every brick the ball overlaps (as the ball stands when that
/// brick is visited) resolves the collision and loses one health point; a
/// brick whose health reaches zero is removed from the world; the rest keep
/// their order.
pub open spec fn sweep_bricks(b: Ball, bricks: Seq<Brick>) -> (Ball, Seq<Brick>)
    decreases bricks.len(),
{
    if bricks.len() == 0 {
        (b, Seq::<Brick>::empty())
    } else {
        let prior = sweep_bricks(b, bricks.drop_last());
        let last = bricks.last();
        if rects_overlap(prior.0.rect, last.rect) {
            let next_ball = resolved(prior.0, last.rect);
            match crate::entities::brick_after_hit(last.health) {
                None => (next_ball, prior.1),
                Some(h) => (next_ball, prior.1.push(Brick { rect: last.rect, health: h })),
            }
        } else {
            (prior.0, prior.1.push(last))
        }
    }
}

/// A brick sweep keeps the ball well formed and its speed magnitude, and
/// every surviving brick is a live, well-placed brick: bricks that reached
/// zero health are absent, so no subsequent sweep can visit them.
pub proof fn lemma_sweep_bricks_wf(b: Ball, bricks: Seq<Brick>)
    requires
        wf_ball(b),
        forall|i: int| 0 <= i < bricks.len() ==> wf_brick(#[trigger] bricks[i]),
    ensures
        wf_ball(sweep_bricks(b, bricks).0),
        sweep_bricks(b, bricks).0.rect.hw == b.rect.hw,
        sweep_bricks(b, bricks).0.rect.hh == b.rect.hh,
        iabs(sweep_bricks(b, bricks).0.rect.x as int) <= imax(
            iabs(b.rect.x as int),
            POS_MAX + 2 * GEOM_MAX + COLLISION_EPSILON,
        ),
        iabs(sweep_bricks(b, bricks).0.rect.y as int) <= imax(
            iabs(b.rect.y as int),
            POS_MAX + 2 * GEOM_MAX + COLLISION_EPSILON,
        ),
        sweep_bricks(b, bricks).0.vx * sweep_bricks(b, bricks).0.vx + sweep_bricks(b, bricks).0.vy
            * sweep_bricks(b, bricks).0.vy == b.vx * b.vx + b.vy * b.vy,
        forall|i: int|
            0 <= i < sweep_bricks(b, bricks).1.len() ==> wf_brick(
                #[trigger] sweep_bricks(b, bricks).1[i],
            ),
        sweep_bricks(b, bricks).1.len() <= bricks.len(),
    decreases bricks.len(),
{
    if bricks.len() > 0 {
        lemma_sweep_bricks_wf(b, bricks.drop_last());
        let prior = sweep_bricks(b, bricks.drop_last());
        lemma_resolved_wf(prior.0, bricks.last().rect);
        lemma_resolution_preserves_speed(prior.0, bricks.last().rect);
    }
}

/// System for handling collisions between the ball and the bricks: visits
/// each brick once, damages those the ball strikes, and removes the
/// destroyed ones from the world in the same frame.
pub fn brick_collision(ball: &mut Ball, bricks: &mut Vec<Brick>)
    requires
        wf_ball(*old(ball)),
        forall|i: int| 0 <= i < old(bricks)@.len() ==> wf_brick(#[trigger] old(bricks)@[i]),
    ensures
        *final(ball) == sweep_bricks(*old(ball), old(bricks)@).0,
        final(bricks)@ == sweep_bricks(*old(ball), old(bricks)@).1,
        wf_ball(*final(ball)),
        final(ball).rect.hw == old(ball).rect.hw,
        final(ball).rect.hh == old(ball).rect.hh,
        iabs(final(ball).rect.x as int) <= imax(
            iabs(old(ball).rect.x as int),
            POS_MAX + 2 * GEOM_MAX + COLLISION_EPSILON,
        ),
        iabs(final(ball).rect.y as int) <= imax(
            iabs(old(ball).rect.y as int),
            POS_MAX + 2 * GEOM_MAX + COLLISION_EPSILON,
        ),
        forall|i: int| 0 <= i < final(bricks)@.len() ==> wf_brick(#[trigger] final(bricks)@[i]),
        final(bricks)@.len() <= old(bricks)@.len(),
{
    let ghost initial = old(bricks)@;
    let mut kept: Vec<Brick> = Vec::new();
    let mut i: usize = 0;
    while i < bricks.len()
        invariant
            0 <= i <= initial.len(),
            bricks@ == initial,
            wf_ball(*old(ball)),
            forall|j: int| 0 <= j < initial.len() ==> wf_brick(#[trigger] initial[j]),
            *ball == sweep_bricks(*old(ball), initial.take(i as int)).0,
            kept@ == sweep_bricks(*old(ball), initial.take(i as int)).1,
            wf_ball(*ball),
        decreases initial.len() - i,
    {
        let brick = bricks[i];
        proof {
            assert(initial.take(i + 1).drop_last() =~= initial.take(i as int));
            assert(initial.take(i + 1).last() == initial[i as int]);
        }
        let hit = detect_collision(ball, &brick.rect);
        if hit {
            if brick.health > 1 {
                kept.push(Brick { rect: brick.rect, health: brick.health - 1 });
            }
        } else {
            kept.push(brick);
        }
        proof {
            lemma_resolved_wf(
                sweep_bricks(*old(ball), initial.take(i as int)).0,
                initial[i as int].rect,
            );
        }
        i = i + 1;
    }
    proof {
        assert(initial.take(initial.len() as int) =~= initial);
        lemma_sweep_bricks_wf(*old(ball), initial);
    }
    *bricks = kept;
}

/// The boost HUD bar's half-width: the bar's full width is the maximum bar
/// width scaled by the meter's clamped fraction of a full meter.
pub open spec fn hud_bar_half_width(boost: i64) -> int {
    BOOST_BAR_HALF_W * iclamp(boost as int, 0, BOOST_MAX as int) / (BOOST_MAX as int)
}

/// The boost HUD bar's horizontal centre: anchored a fixed inset from the
/// window's left edge, shifted left as the meter empties so the bar shrinks
/// from its right edge.
pub open spec fn hud_bar_x(window_width: u64, boost: i64) -> int {
    -(window_width as int / 2) + BOOST_BAR_HALF_W + BOOST_HUD_INSET - (BOOST_MAX - boost)
}

/// The HUD after one frame's projection of the boost meter: a purely
/// derived bar size and offset; the background is untouched.
pub open spec fn display_step(h: Hud, s: State) -> Hud {
    Hud {
        bar: Rect {
            x: hud_bar_x(s.window_width, s.boost) as i64,
            y: h.bar.y,
            hw: hud_bar_half_width(s.boost) as i64,
            hh: BOOST_BAR_HALF_H,
        },
        background: h.background,
    }
}

/// System for updating the boost HUD from the meter; writes only the
/// foreground bar's size and horizontal offset.
pub fn boost_display(hud: &mut Hud, state: &State)
    requires
        wf_state(*state),
    ensures
        *final(hud) == display_step(*old(hud), *state),
{
    proof {
        lemma_mul_bounds(state.boost as int, BOOST_BAR_HALF_W as int, BOOST_MAX as int, BOOST_BAR_HALF_W as int);
    }
    let scaled: u64 = (state.boost as u64) * (BOOST_BAR_HALF_W as u64) / (BOOST_MAX as u64);
    hud.bar.hw = scaled as i64;
    hud.bar.hh = BOOST_BAR_HALF_H;
    let half: i64 = (state.window_width / 2) as i64;
    hud.bar.x = -half + BOOST_BAR_HALF_W + BOOST_HUD_INSET - (BOOST_MAX - state.boost);
}

/// The state and timer after one frame's recharge advance: when the
/// repeating timer completes a period, the meter gains one recharge
/// increment, clamped at full.
pub open spec fn recharge_step(s: State, t: BoostTimer, dt: u64) -> (State, BoostTimer) {
    let ticked = tick_step(t, dt);
    if ticked.1 {
        (State { boost: boost_step(s.boost, BoostOp::Recharge), ..s }, ticked.0)
    } else {
        (s, ticked.0)
    }
}

/// System for recharging the player's boost on the repeating timer.
pub fn boost_recharge(state: &mut State, timer: &mut BoostTimer, dt: u64)
    requires
        wf_state(*old(state)),
        wf_timer(*old(timer)),
        dt <= DT_MAX,
    ensures
        (*final(state), *final(timer)) == recharge_step(*old(state), *old(timer), dt),
        wf_state(*final(state)),
        wf_timer(*final(timer)),
{
    let fired = timer.tick(dt);
    if fired {
        state.recharge_boost();
    }
}

/// A wall relaid out for a new window size: the left and right walls hug
/// the new side edges at full window height, the top wall hugs the new top
/// edge at full window width; an unknown slot is left untouched.
pub open spec fn wall_after_event(w: Wall, e: ResizeEvent) -> Wall {
    if w.slot == 0 {
        Wall {
            slot: w.slot,
            rect: Rect {
                x: (-(e.width as int / 2) - WALL_HALF_THICKNESS) as i64,
                y: w.rect.y,
                hw: WALL_HALF_THICKNESS,
                hh: (e.height as int / 2) as i64,
            },
        }
    } else if w.slot == 1 {
        Wall {
            slot: w.slot,
            rect: Rect {
                x: (e.width as int / 2 + WALL_HALF_THICKNESS) as i64,
                y: w.rect.y,
                hw: WALL_HALF_THICKNESS,
                hh: (e.height as int / 2) as i64,
            },
        }
    } else if w.slot == 2 {
        Wall {
            slot: w.slot,
            rect: Rect {
                x: w.rect.x,
                y: (e.height as int / 2 + WALL_HALF_THICKNESS) as i64,
                hw: (e.width as int / 2) as i64,
                hh: WALL_HALF_THICKNESS,
            },
        }
    } else {
        w
    }
}

/// The boost HUD anchor for a window size: a fixed inset from the top-left
/// corner.
pub open spec fn hud_anchor_x(width: u64) -> int {
    -(width as int / 2) + BOOST_BAR_HALF_W + BOOST_HUD_INSET
}

/// See [`hud_anchor_x`].
pub open spec fn hud_anchor_y(height: u64) -> int {
    height as int / 2 - BOOST_BAR_HALF_H - BOOST_HUD_INSET
}

/// The HUD after a resize: bar and background both move to the new anchor;
/// their sizes are untouched.
pub open spec fn hud_after_event(h: Hud, e: ResizeEvent) -> Hud {
    Hud {
        bar: Rect { x: hud_anchor_x(e.width) as i64, y: hud_anchor_y(e.height) as i64, ..h.bar },
        background: Rect {
            x: hud_anchor_x(e.width) as i64,
            y: hud_anchor_y(e.height) as i64,
            ..h.background
        },
    }
}

/// The whole layout after one resize event: new window bounds in the state,
/// every wall relaid out, the HUD re-anchored.
pub open spec fn resize_step(s: State, walls: Seq<Wall>, h: Hud, e: ResizeEvent) -> (
    State,
    Seq<Wall>,
    Hud,
) {
    (
        State { boost: s.boost, window_width: e.width, window_height: e.height },
        Seq::new(walls.len(), |i: int| wall_after_event(walls[i], e)),
        hud_after_event(h, e),
    )
}

/// The layout after a sequence of resize events, applied in order.
pub open spec fn resize_run(s: State, walls: Seq<Wall>, h: Hud, evs: Seq<ResizeEvent>) -> (
    State,
    Seq<Wall>,
    Hud,
)
    decreases evs.len(),
{
    if evs.len() == 0 {
        (s, walls, h)
    } else {
        let prior = resize_run(s, walls, h, evs.drop_last());
        resize_step(prior.0, prior.1, prior.2, evs.last())
    }
}

/// Relayout is idempotent: re-applying the same resize event yields the
/// same layout, since every recomputed quantity depends only on the event.
pub proof fn lemma_resize_idempotent(s: State, walls: Seq<Wall>, h: Hud, e: ResizeEvent)
    ensures
        ({
            let once = resize_step(s, walls, h, e);
            resize_step(once.0, once.1, once.2, e) == once
        }),
{
    let once = resize_step(s, walls, h, e);
    let twice = resize_step(once.0, once.1, once.2, e);
    assert forall|i: int| 0 <= i < walls.len() implies twice.1[i] == once.1[i] by {
        assert(wall_after_event(wall_after_event(walls[i], e), e) == wall_after_event(
            walls[i],
            e,
        ));
    }
    assert(twice.1 =~= once.1);
}

/// Relayout from bounded events keeps every wall a well-placed obstacle and
/// keeps each wall's slot.
pub proof fn lemma_resize_run_wf(s: State, walls: Seq<Wall>, h: Hud, evs: Seq<ResizeEvent>)
    requires
        forall|i: int| 0 <= i < walls.len() ==> wf_obstacle(#[trigger] walls[i].rect),
        forall|k: int| 0 <= k < evs.len() ==> wf_event(#[trigger] evs[k]),
    ensures
        resize_run(s, walls, h, evs).1.len() == walls.len(),
        forall|i: int|
            0 <= i < walls.len() ==> (#[trigger] resize_run(s, walls, h, evs).1[i]).slot
                == walls[i].slot,
        forall|i: int|
            0 <= i < walls.len() ==> wf_obstacle(#[trigger] resize_run(s, walls, h, evs).1[i].rect),
    decreases evs.len(),
{
    if evs.len() > 0 {
        lemma_resize_run_wf(s, walls, h, evs.drop_last());
    }
}

/// System for relaying out the walls, the HUD anchor and the stored window
/// bounds on each window-resize notification since the last frame.
pub fn window_resize(
    state: &mut State,
    walls: &mut Vec<Wall>,
    hud: &mut Hud,
    events: &Vec<ResizeEvent>,
)
    requires
        wf_state(*old(state)),
        forall|k: int| 0 <= k < events@.len() ==> wf_event(#[trigger] events@[k]),
    ensures
        ({
            let run = resize_run(*old(state), old(walls)@, *old(hud), events@);
            &&& *final(state) == run.0
            &&& final(walls)@ == run.1
            &&& *final(hud) == run.2
        }),
        wf_state(*final(state)),
        final(walls)@.len() == old(walls)@.len(),
{
    let ghost s0 = *state;
    let ghost w0 = walls@;
    let ghost h0 = *hud;
    let mut k: usize = 0;
    while k < events.len()
        invariant
            0 <= k <= events@.len(),
            forall|j: int| 0 <= j < events@.len() ==> wf_event(#[trigger] events@[j]),
            ({
                let run = resize_run(s0, w0, h0, events@.take(k as int));
                &&& *state == run.0
                &&& walls@ == run.1
                &&& *hud == run.2
            }),
            wf_state(s0),
            wf_state(*state),
            walls@.len() == w0.len(),
        decreases events@.len() - k,
    {
        let e = events[k];
        proof {
            assert(events@.take(k + 1).drop_last() =~= events@.take(k as int));
            assert(events@.take(k + 1).last() == events@[k as int]);
        }
        state.window_width = e.width;
        state.window_height = e.height;

        let ghost entered = walls@;
        let mut j: usize = 0;
        while j < walls.len()
            invariant
                0 <= j <= walls@.len(),
                walls@.len() == entered.len(),
                e.width <= crate::WINDOW_MAX,
                e.height <= crate::WINDOW_MAX,
                forall|i: int| 0 <= i < j ==> walls@[i] == wall_after_event(entered[i], e),
                forall|i: int| j <= i < walls@.len() ==> walls@[i] == entered[i],
            decreases walls@.len() - j,
        {
            let w = walls[j];
            let half_w: i64 = (e.width / 2) as i64;
            let half_h: i64 = (e.height / 2) as i64;
            if w.slot == 0 {
                walls.set(
                    j,
                    Wall {
                        slot: w.slot,
                        rect: Rect {
                            x: -half_w - WALL_HALF_THICKNESS,
                            y: w.rect.y,
                            hw: WALL_HALF_THICKNESS,
                            hh: half_h,
                        },
                    },
                );
            } else if w.slot == 1 {
                walls.set(
                    j,
                    Wall {
                        slot: w.slot,
                        rect: Rect {
                            x: half_w + WALL_HALF_THICKNESS,
                            y: w.rect.y,
                            hw: WALL_HALF_THICKNESS,
                            hh: half_h,
                        },
                    },
                );
            } else if w.slot == 2 {
                walls.set(
                    j,
                    Wall {
                        slot: w.slot,
                        rect: Rect {
                            x: w.rect.x,
                            y: half_h + WALL_HALF_THICKNESS,
                            hw: half_w,
                            hh: WALL_HALF_THICKNESS,
                        },
                    },
                );
            }
            j = j + 1;
        }

        let anchor_x: i64 = -((e.width / 2) as i64) + BOOST_BAR_HALF_W + BOOST_HUD_INSET;
        let anchor_y: i64 = ((e.height / 2) as i64) - BOOST_BAR_HALF_H - BOOST_HUD_INSET;
        hud.bar.x = anchor_x;
        hud.bar.y = anchor_y;
        hud.background.x = anchor_x;
        hud.background.y = anchor_y;

        proof {
            assert(walls@ =~= Seq::new(entered.len(), |i: int| wall_after_event(entered[i], e)));
        }
        k = k + 1;
    }
    proof {
        assert(events@.take(events@.len() as int) =~= events@);
    }
}

} // verus!
