//! Simulation core of a Breakout-style arcade game.
//!
//! A paddle, a ball with a reflecting velocity, three walls, a destructible
//! brick field and a boost meter that doubles paddle speed while draining.
//! All quantities are integers in fixed-point units: positions and extents in
//! milli-pixels (1000 per pixel), velocities in milli-pixels per millisecond
//! (numerically equal to pixels per second), frame deltas in milliseconds, and
//! the boost meter in milli-points (100_000 is a full meter).  In these units
//! every per-frame update of the game is exact integer arithmetic.
//!
//! The host (window, input polling, rendering) drives the simulation by
//! calling [`world::frame`] once per rendered frame with the elapsed time,
//! the held keys and any window-resize events; the library owns all game
//! rules and never performs I/O.

use vstd::prelude::*;

pub mod boost;
pub mod collision;
pub mod entities;
pub mod geom;
pub mod state;
pub mod systems;
pub mod world;

verus! {

/// The constant speed the ball moves at, in milli-pixels per millisecond
/// (numerically: pixels per second).
pub const BALL_SPEED: i64 = 250;

/// Base paddle speed, in milli-pixels per millisecond.
pub const PADDLE_SPEED: i64 = 500;

/// Rate at which boost drains while held, in milli-points per millisecond
/// (numerically: points per second).
pub const BOOST_DRAIN: i64 = 50;

/// The amount of boost rewarded on each recharge tick, in milli-points.
pub const BOOST_RECHARGE: i64 = 5_000;

/// A full boost meter, in milli-points.
pub const BOOST_MAX: i64 = 100_000;

/// How often the boost recharges, in milliseconds.
pub const BOOST_RECHARGE_INTERVAL: u64 = 1_000;

/// Thickness of the walls that surround the playing area, in milli-pixels.
pub const WALL_THICKNESS: i64 = 20_000;

/// Half of [`WALL_THICKNESS`]: the walls' half-extent across their length.
pub const WALL_HALF_THICKNESS: i64 = 10_000;

// Default window dimensions, in milli-pixels.
pub const WINDOW_WIDTH: u64 = 1_280_000;
pub const WINDOW_HEIGHT: u64 = 720_000;

// Boost HUD bar dimensions, in milli-pixels.
pub const BOOST_BAR_W: i64 = 200_000;
pub const BOOST_BAR_H: i64 = 15_000;

// Half-extents of the boost HUD bar.
pub const BOOST_BAR_HALF_W: i64 = 100_000;
pub const BOOST_BAR_HALF_H: i64 = 7_500;

/// How far the boost HUD is inset from the edge of the screen, in milli-pixels.
pub const BOOST_HUD_INSET: i64 = 30_000;

/// Border of the boost HUD background around the bar, in milli-pixels.
pub const BOOST_PADDING: i64 = 5_000;

/// Outward offset applied when repositioning the ball flush against a struck
/// face, in milli-pixels (a tenth of a pixel), to prevent an immediate
/// re-collision on the next frame.
pub const COLLISION_EPSILON: i64 = 100;

// Brick layout constants, in milli-pixels.
pub const BRICK_MARGIN: i64 = 15_000;
pub const BRICK_SIZE: i64 = 50_000;
/// Half of [`BRICK_SIZE`]: a brick's half-extent on both axes.
pub const BRICK_HALF_SIZE: i64 = 25_000;
pub const BRICK_ROWS: u64 = 3;
/// How many bricks tile one row edge-to-edge: the default window width
/// divided by a brick cell (size plus margin), rounded down.
pub const BRICK_COUNT: u64 = 19;
/// Total candidate grid cells: `BRICK_COUNT` columns times `BRICK_ROWS` rows.
pub const BRICK_CELLS: u64 = 57;
/// Horizontal centre of the leftmost brick column: the row of 19 bricks and
/// 18 margins spans 1_220_000, centred in the default window.
pub const BRICK_X_START: i64 = -585_000;
/// Vertical centre of the topmost brick row.
pub const BRICK_Y_START: i64 = 250_000;

/// A fresh brick's health; every resolved collision removes one point.
pub const BRICK_HEALTH_MAX: u32 = 3;

/// Probability, in thousandths, that a candidate grid cell holds a brick.
pub const BRICK_PROBABILITY_PERMILLE: u64 = 600;

// Machine limits.  These keep every i64 computation of the simulation far
// from overflow; they are many orders of magnitude beyond anything a real
// arena reaches (a position limit of 1e15 milli-pixels is a billion pixels).

/// Bound on the magnitude of any half-extent and on window dimensions.
pub const GEOM_MAX: i64 = 1_000_000_000_000;

/// Bound on the magnitude of any obstacle position, and on the ball position
/// at the start of a frame.
pub const POS_MAX: i64 = 1_000_000_000_000_000;

/// Bound on the magnitude of a velocity component.
pub const VEL_MAX: i64 = 1_000_000_000;

/// Bound on a single frame's elapsed time, in milliseconds (about 28 hours).
pub const DT_MAX: u64 = 100_000_000;

/// Bound on window dimensions handed to resize events, in milli-pixels.
pub const WINDOW_MAX: u64 = 1_000_000_000_000;

/// Bound on the ball position anywhere inside one frame: starting within
/// `POS_MAX`, one integration step moves it at most `VEL_MAX * DT_MAX`.
pub const SIM_RANGE: i64 = 2_000_000_000_000_000_000;

} // verus!
