//! The simulation world: exclusive owner of every entity, created once at
//! startup and mutated by the per-frame pipeline.

use vstd::prelude::*;
use crate::boost::{wf_timer, BoostTimer};
use crate::collision::{wf_ball, Ball};
use crate::entities::{
    wf_brick, wf_event, wf_obstacle, Brick, Hud, Input, Paddle, ResizeEvent, Wall,
};
use crate::geom::{iabs, Rect};
use crate::state::{wf_state, State};
use crate::systems::{
    ball_moved, ball_movement, boost_display, boost_recharge, brick_collision, display_step,
    general_collision, hud_anchor_x, hud_anchor_y, lemma_resize_run_wf, paddle_bound,
    paddle_movement, paddle_step, recharge_step, resize_run, sweep_bricks, sweep_obstacles,
    wall_rects, window_resize,
};
use crate::{
    BALL_SPEED, BOOST_BAR_HALF_H, BOOST_BAR_HALF_W, BOOST_HUD_INSET, BOOST_MAX, BOOST_PADDING,
    BOOST_RECHARGE_INTERVAL, BRICK_CELLS, BRICK_HALF_SIZE, BRICK_HEALTH_MAX, BRICK_MARGIN,
    BRICK_PROBABILITY_PERMILLE, BRICK_ROWS, BRICK_SIZE, BRICK_X_START, BRICK_Y_START, DT_MAX,
    POS_MAX, VEL_MAX, WALL_HALF_THICKNESS, WINDOW_HEIGHT, WINDOW_WIDTH,
};

verus! {

/// The whole game world.  Exactly one ball and one paddle exist by
/// construction, so no per-frame lookup can find zero or many.
pub struct World {
    pub ball: Ball,
    pub paddle: Paddle,
    pub walls: Vec<Wall>,
    pub bricks: Vec<Brick>,
    pub state: State,
    pub timer: BoostTimer,
    pub hud: Hud,
}

/// The mathematical model of a world, with the collections as sequences.
pub struct WorldModel {
    pub ball: Ball,
    pub paddle: Paddle,
    pub walls: Seq<Wall>,
    pub bricks: Seq<Brick>,
    pub state: State,
    pub timer: BoostTimer,
    pub hud: Hud,
}

impl View for World {
    type V = WorldModel;

    open spec fn view(&self) -> WorldModel {
        WorldModel {
            ball: self.ball,
            paddle: self.paddle,
            walls: self.walls@,
            bricks: self.bricks@,
            state: self.state,
            timer: self.timer,
            hud: self.hud,
        }
    }
}

/// The world's invariant: a well-formed ball, paddle and state, the three
/// walls in their slots (0 left, 1 right, 2 top), only live well-placed
/// bricks, and a well-formed recharge timer.
pub open spec fn wf_world(m: WorldModel) -> bool {
    &&& wf_ball(m.ball)
    &&& wf_obstacle(m.paddle.rect)
    &&& m.walls.len() == 3
    &&& forall|i: int| 0 <= i < 3 ==> (#[trigger] m.walls[i]).slot == i
    &&& forall|i: int| 0 <= i < 3 ==> wf_obstacle(#[trigger] m.walls[i].rect)
    &&& forall|i: int| 0 <= i < m.bricks.len() ==> wf_brick(#[trigger] m.bricks[i])
    &&& wf_state(m.state)
    &&& wf_timer(m.timer)
}

/// The ball's centre lies within the given bound on both axes.
pub open spec fn ball_within(b: Ball, bound: int) -> bool {
    &&& iabs(b.rect.x as int) <= bound
    &&& iabs(b.rect.y as int) <= bound
}

/// The candidate brick cell with the given index, counted down each column
/// and then across, as the grid is spawned.
pub open spec fn brick_cell(k: int) -> Brick {
    let col = k / (BRICK_ROWS as int);
    let row = k % (BRICK_ROWS as int);
    Brick {
        rect: Rect {
            x: (BRICK_X_START + col * ((BRICK_SIZE + BRICK_MARGIN) as int)) as i64,
            y: (BRICK_Y_START - row * ((BRICK_SIZE + BRICK_MARGIN) as int)) as i64,
            hw: BRICK_HALF_SIZE,
            hh: BRICK_HALF_SIZE,
        },
        health: BRICK_HEALTH_MAX,
    }
}

/// The bricks spawned by the first `k` grid cells: each cell holds a fresh
/// brick iff its random draw, in thousandths, falls under the fixed
/// inclusion probability.
pub open spec fn grid_upto(randoms: Seq<u64>, k: int) -> Seq<Brick>
    decreases k,
{
    if k <= 0 {
        Seq::<Brick>::empty()
    } else {
        let rest = grid_upto(randoms, k - 1);
        if randoms[k - 1] < BRICK_PROBABILITY_PERMILLE {
            rest.push(brick_cell(k - 1))
        } else {
            rest
        }
    }
}

/// The whole brick grid for one sequence of random draws.
pub open spec fn grid_bricks(randoms: Seq<u64>) -> Seq<Brick> {
    grid_upto(randoms, randoms.len() as int)
}

/// The world a given sequence of random draws bootstraps: walls hugging the
/// default window edges, the paddle centred near the bottom, the ball on a
/// down-right diagonal, a full boost meter, the HUD anchored top-left, and
/// the brick grid drawn from the draws.
pub open spec fn initial_world(randoms: Seq<u64>) -> WorldModel {
    WorldModel {
        ball: Ball {
            rect: Rect { x: (-150_000) as i64, y: 0, hw: 15_000, hh: 15_000 },
            vx: BALL_SPEED,
            vy: (-(BALL_SPEED as int)) as i64,
        },
        paddle: Paddle { rect: Rect { x: 0, y: (-300_000) as i64, hw: 100_000, hh: 25_000 } },
        walls: seq![
            Wall {
                slot: 0,
                rect: Rect {
                    x: (-(WINDOW_WIDTH as int / 2) - WALL_HALF_THICKNESS) as i64,
                    y: 0,
                    hw: WALL_HALF_THICKNESS,
                    hh: (WINDOW_HEIGHT as int / 2) as i64,
                },
            },
            Wall {
                slot: 1,
                rect: Rect {
                    x: (WINDOW_WIDTH as int / 2 + WALL_HALF_THICKNESS) as i64,
                    y: 0,
                    hw: WALL_HALF_THICKNESS,
                    hh: (WINDOW_HEIGHT as int / 2) as i64,
                },
            },
            Wall {
                slot: 2,
                rect: Rect {
                    x: 0,
                    y: (WINDOW_HEIGHT as int / 2 + WALL_HALF_THICKNESS) as i64,
                    hw: (WINDOW_WIDTH as int / 2) as i64,
                    hh: WALL_HALF_THICKNESS,
                },
            },
        ],
        bricks: grid_bricks(randoms),
        state: State { boost: BOOST_MAX, window_height: WINDOW_HEIGHT, window_width: WINDOW_WIDTH },
        timer: BoostTimer { elapsed: 0, period: BOOST_RECHARGE_INTERVAL },
        hud: Hud {
            bar: Rect {
                x: hud_anchor_x(WINDOW_WIDTH) as i64,
                y: hud_anchor_y(WINDOW_HEIGHT) as i64,
                hw: BOOST_BAR_HALF_W,
                hh: BOOST_BAR_HALF_H,
            },
            background: Rect {
                x: hud_anchor_x(WINDOW_WIDTH) as i64,
                y: hud_anchor_y(WINDOW_HEIGHT) as i64,
                hw: (BOOST_BAR_HALF_W + BOOST_PADDING) as i64,
                hh: (BOOST_BAR_HALF_H + BOOST_PADDING) as i64,
            },
        },
    }
}

/// Assembles the scene for one run from the given random draws, one per
/// candidate brick cell, in thousandths: a cell under the fixed inclusion
/// probability holds a brick.  Taking the draws as an argument keeps the
/// bootstrap deterministic for testing; [`spawn_world`] feeds it from the
/// system's random source.
pub fn startup(randoms: &Vec<u64>) -> (w: World)
    requires
        randoms@.len() == BRICK_CELLS,
    ensures
        w@ == initial_world(randoms@),
        wf_world(w@),
        ball_within(w@.ball, POS_MAX as int),
{
    let mut bricks: Vec<Brick> = Vec::new();
    let mut k: usize = 0;
    while k < randoms.len()
        invariant
            randoms@.len() == BRICK_CELLS,
            0 <= k <= randoms@.len(),
            bricks@ == grid_upto(randoms@, k as int),
            forall|i: int| 0 <= i < bricks@.len() ==> wf_brick(#[trigger] bricks@[i]),
        decreases randoms@.len() - k,
    {
        if randoms[k] < BRICK_PROBABILITY_PERMILLE {
            let col: usize = k / (BRICK_ROWS as usize);
            let row: usize = k % (BRICK_ROWS as usize);
            bricks.push(
                Brick {
                    rect: Rect {
                        x: BRICK_X_START + (col as i64) * (BRICK_SIZE + BRICK_MARGIN),
                        y: BRICK_Y_START - (row as i64) * (BRICK_SIZE + BRICK_MARGIN),
                        hw: BRICK_HALF_SIZE,
                        hh: BRICK_HALF_SIZE,
                    },
                    health: BRICK_HEALTH_MAX,
                },
            );
        }
        k = k + 1;
    }

    let mut walls: Vec<Wall> = Vec::new();
    walls.push(
        Wall {
            slot: 0,
            rect: Rect {
                x: -((WINDOW_WIDTH / 2) as i64) - WALL_HALF_THICKNESS,
                y: 0,
                hw: WALL_HALF_THICKNESS,
                hh: (WINDOW_HEIGHT / 2) as i64,
            },
        },
    );
    walls.push(
        Wall {
            slot: 1,
            rect: Rect {
                x: ((WINDOW_WIDTH / 2) as i64) + WALL_HALF_THICKNESS,
                y: 0,
                hw: WALL_HALF_THICKNESS,
                hh: (WINDOW_HEIGHT / 2) as i64,
            },
        },
    );
    walls.push(
        Wall {
            slot: 2,
            rect: Rect {
                x: 0,
                y: ((WINDOW_HEIGHT / 2) as i64) + WALL_HALF_THICKNESS,
                hw: (WINDOW_WIDTH / 2) as i64,
                hh: WALL_HALF_THICKNESS,
            },
        },
    );

    let anchor_x: i64 = -((WINDOW_WIDTH / 2) as i64) + BOOST_BAR_HALF_W + BOOST_HUD_INSET;
    let anchor_y: i64 = ((WINDOW_HEIGHT / 2) as i64) - BOOST_BAR_HALF_H - BOOST_HUD_INSET;
    let world = World {
        ball: Ball {
            rect: Rect { x: -150_000, y: 0, hw: 15_000, hh: 15_000 },
            vx: BALL_SPEED,
            vy: -BALL_SPEED,
        },
        paddle: Paddle { rect: Rect { x: 0, y: -300_000, hw: 100_000, hh: 25_000 } },
        walls,
        bricks,
        state: State {
            boost: BOOST_MAX,
            window_height: WINDOW_HEIGHT,
            window_width: WINDOW_WIDTH,
        },
        timer: BoostTimer::recharge(),
        hud: Hud {
            bar: Rect {
                x: anchor_x,
                y: anchor_y,
                hw: BOOST_BAR_HALF_W,
                hh: BOOST_BAR_HALF_H,
            },
            background: Rect {
                x: anchor_x,
                y: anchor_y,
                hw: BOOST_BAR_HALF_W + BOOST_PADDING,
                hh: BOOST_BAR_HALF_H + BOOST_PADDING,
            },
        },
    };
    proof {
        assert(world@.walls =~= initial_world(randoms@).walls);
    }
    world
}

/// Relies on `rand::Rng::gen_range` on `rand::thread_rng()`: a sample from
/// the non-empty integer range `0..1000` lies in that range.
#[verifier::external_body]
fn random_permille() -> (r: u64)
    ensures
        r < 1000,
{
    rand::Rng::gen_range(&mut rand::thread_rng(), 0..1000u64)
}

/// Creates the world of one run, drawing each brick cell's inclusion from
/// the system's random source, so the layout differs from run to run; every
/// outcome is the bootstrap of some sequence of draws.
pub fn spawn_world() -> (w: World)
    ensures
        wf_world(w@),
        ball_within(w@.ball, POS_MAX as int),
        exists|randoms: Seq<u64>|
            {
                &&& #[trigger] initial_world(randoms) == w@
                &&& randoms.len() == BRICK_CELLS
                &&& forall|i: int| 0 <= i < randoms.len() ==> randoms[i] < 1000
            },
{
    let mut randoms: Vec<u64> = Vec::new();
    let mut k: usize = 0;
    while k < BRICK_CELLS as usize
        invariant
            randoms@.len() == k,
            0 <= k <= BRICK_CELLS,
            forall|i: int| 0 <= i < randoms@.len() ==> randoms@[i] < 1000,
        decreases BRICK_CELLS - k,
    {
        randoms.push(random_permille());
        k = k + 1;
    }
    let world = startup(&randoms);
    proof {
        assert(initial_world(randoms@) == world@);
    }
    world
}

/// The world after one frame of the fixed pipeline: paddle movement with
/// boost drain, ball movement, the brick sweep with damage, the sweep over
/// the walls and the paddle, the boost HUD projection, the boost recharge
/// tick, and finally the window-resize relayout.
pub open spec fn frame_spec(m: WorldModel, input: Input, dt: u64, events: Seq<ResizeEvent>) -> WorldModel {
    let moved_paddle = paddle_step(m.paddle, m.state, m.timer, input, dt);
    let moved_ball = ball_moved(m.ball, dt);
    let after_bricks = sweep_bricks(moved_ball, m.bricks);
    let after_walls = sweep_obstacles(
        after_bricks.0,
        wall_rects(m.walls).push(moved_paddle.0.rect),
    );
    let shown_hud = display_step(m.hud, moved_paddle.1);
    let recharged = recharge_step(moved_paddle.1, moved_paddle.2, dt);
    let resized = resize_run(recharged.0, m.walls, shown_hud, events);
    WorldModel {
        ball: after_walls,
        paddle: moved_paddle.0,
        walls: resized.1,
        bricks: after_bricks.1,
        state: resized.0,
        timer: recharged.1,
        hud: resized.2,
    }
}

/// Runs one frame of the simulation: the update systems in the fixed order
/// of [`frame_spec`] against the exclusively borrowed world, with the
/// elapsed milliseconds, the held keys and the resize notifications since
/// the last frame as the only external inputs.
pub fn frame(world: &mut World, input: &Input, dt: u64, events: &Vec<ResizeEvent>)
    requires
        wf_world(old(world)@),
        ball_within(old(world)@.ball, POS_MAX as int),
        dt <= DT_MAX,
        forall|k: int| 0 <= k < events@.len() ==> wf_event(#[trigger] events@[k]),
    ensures
        final(world)@ == frame_spec(old(world)@, *input, dt, events@),
        wf_world(final(world)@),
        ball_within(final(world)@.ball, POS_MAX + VEL_MAX * DT_MAX),
        iabs(final(world)@.paddle.rect.x as int) <= paddle_bound(
            old(world)@.state.window_width,
            old(world)@.paddle,
        ),
{
    paddle_movement(&mut world.paddle, &mut world.state, &mut world.timer, input, dt);
    ball_movement(&mut world.ball, dt);
    proof {
        assert(world.bricks@ == old(world)@.bricks);
    }
    brick_collision(&mut world.ball, &mut world.bricks);
    general_collision(&mut world.ball, &world.walls, &world.paddle);
    boost_display(&mut world.hud, &world.state);
    boost_recharge(&mut world.state, &mut world.timer, dt);
    window_resize(&mut world.state, &mut world.walls, &mut world.hud, events);
    proof {
        lemma_resize_run_wf(
            recharge_step(
                paddle_step(old(world)@.paddle, old(world)@.state, old(world)@.timer, *input, dt).1,
                paddle_step(old(world)@.paddle, old(world)@.state, old(world)@.timer, *input, dt).2,
                dt,
            ).0,
            old(world)@.walls,
            display_step(
                old(world)@.hud,
                paddle_step(old(world)@.paddle, old(world)@.state, old(world)@.timer, *input, dt).1,
            ),
            events@,
        );
    }
}

} // verus!
