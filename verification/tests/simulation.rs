//! End-to-end tests of the simulation core, in the library's fixed-point
//! units: milli-pixels, milliseconds, milli-points.

use breakout::collision::{detect_collision, Ball};
use breakout::entities::{brick_color, brick_color_index, Brick, Hud, Input, Paddle, ResizeEvent, Wall};
use breakout::geom::{overlap, Rect, Side};
use breakout::state::State;
use breakout::boost::BoostTimer;
use breakout::systems::{
    ball_movement, boost_display, boost_recharge, brick_collision, general_collision,
    paddle_movement, window_resize,
};
use breakout::world::{frame, spawn_world, startup, World};

fn ball(x: i64, y: i64, vx: i64, vy: i64) -> Ball {
    Ball { rect: Rect { x, y, hw: 15_000, hh: 15_000 }, vx, vy }
}

fn paddle() -> Paddle {
    Paddle { rect: Rect { x: 0, y: -300_000, hw: 100_000, hh: 25_000 } }
}

fn default_state() -> State {
    State { boost: 100_000, window_width: 1_280_000, window_height: 720_000 }
}

fn default_walls() -> Vec<Wall> {
    vec![
        Wall { slot: 0, rect: Rect { x: -650_000, y: 0, hw: 10_000, hh: 360_000 } },
        Wall { slot: 1, rect: Rect { x: 650_000, y: 0, hw: 10_000, hh: 360_000 } },
        Wall { slot: 2, rect: Rect { x: 0, y: 370_000, hw: 640_000, hh: 10_000 } },
    ]
}

fn default_hud() -> Hud {
    Hud {
        bar: Rect { x: -510_000, y: 322_500, hw: 100_000, hh: 7_500 },
        background: Rect { x: -510_000, y: 322_500, hw: 105_000, hh: 12_500 },
    }
}

fn world_without_bricks() -> World {
    World {
        ball: ball(-150_000, 0, 250, -250),
        paddle: paddle(),
        walls: default_walls(),
        bricks: Vec::new(),
        state: default_state(),
        timer: BoostTimer { elapsed: 0, period: 1_000 },
        hud: default_hud(),
    }
}

fn speed_squared(b: &Ball) -> i128 {
    (b.vx as i128) * (b.vx as i128) + (b.vy as i128) * (b.vy as i128)
}

#[test]
fn overlap_requires_both_axes() {
    let a = Rect { x: 0, y: 0, hw: 15_000, hh: 15_000 };
    // The mover sits left of the target, so it strikes the target's left face.
    let near = Rect { x: 20_000, y: 0, hw: 10_000, hh: 10_000 };
    assert_eq!(overlap(&a, &near), Some(Side::Left));
    let far = Rect { x: 50_000, y: 0, hw: 10_000, hh: 10_000 };
    assert_eq!(overlap(&a, &far), None);
    let diagonal = Rect { x: 20_000, y: 30_000, hw: 10_000, hh: 10_000 };
    assert_eq!(overlap(&a, &diagonal), None);
}

#[test]
fn overlap_side_by_smaller_penetration() {
    // Deep on the vertical axis, shallow on the horizontal: horizontal wins.
    let a = Rect { x: -22_000, y: 1_000, hw: 15_000, hh: 15_000 };
    let b = Rect { x: 0, y: 0, hw: 10_000, hh: 10_000 };
    assert_eq!(overlap(&a, &b), Some(Side::Left));
    // Shallow on the vertical axis instead: vertical wins.
    let c = Rect { x: -1_000, y: 22_000, hw: 15_000, hh: 15_000 };
    assert_eq!(overlap(&c, &b), Some(Side::Top));
}

#[test]
fn corner_tie_favours_horizontal() {
    // Equal penetration on both axes: the side is horizontal, so corner
    // hits resolve consistently.
    let a = Rect { x: -20_000, y: 20_000, hw: 15_000, hh: 15_000 };
    let b = Rect { x: 0, y: 0, hw: 10_000, hh: 10_000 };
    assert_eq!(overlap(&a, &b), Some(Side::Left));
}

#[test]
fn reflection_preserves_speed_and_flips_one_axis() {
    // Struck from the left: vx flips, vy unchanged.
    let mut b = ball(-22_000, 1_000, 250, -250);
    let obstacle = Rect { x: 0, y: 0, hw: 10_000, hh: 10_000 };
    let before = speed_squared(&b);
    assert!(detect_collision(&mut b, &obstacle));
    assert_eq!(b.vx, -250);
    assert_eq!(b.vy, -250);
    assert_eq!(speed_squared(&b), before);
    // Repositioned flush left of the obstacle with the outward offset.
    assert_eq!(b.rect.x, -10_000 - 15_000 - 100);
    assert_eq!(b.rect.y, 1_000);

    // Struck from above: vy flips, vx unchanged.
    let mut c = ball(-1_000, 22_000, 250, -250);
    let before = speed_squared(&c);
    assert!(detect_collision(&mut c, &obstacle));
    assert_eq!(c.vx, 250);
    assert_eq!(c.vy, 250);
    assert_eq!(speed_squared(&c), before);
    assert_eq!(c.rect.y, 10_000 + 15_000 + 100);
}

#[test]
fn missed_collision_changes_nothing() {
    let mut b = ball(0, 0, 250, -250);
    let obstacle = Rect { x: 200_000, y: 0, hw: 10_000, hh: 10_000 };
    assert!(!detect_collision(&mut b, &obstacle));
    assert_eq!(b, ball(0, 0, 250, -250));
}

#[test]
fn ball_moves_by_velocity_times_dt() {
    let mut b = ball(0, 0, 250, -250);
    ball_movement(&mut b, 16);
    assert_eq!(b.rect.x, 4_000);
    assert_eq!(b.rect.y, -4_000);
    assert_eq!(b.vx, 250);
    assert_eq!(b.vy, -250);
}

#[test]
fn paddle_moves_and_clamps_at_arena_edge() {
    let mut p = paddle();
    let mut s = default_state();
    let mut t = BoostTimer { elapsed: 500, period: 1_000 };
    let input = Input { left: false, right: true, boost: false };
    paddle_movement(&mut p, &mut s, &mut t, &input, 100);
    // 500 milli-pixels per millisecond for 100 ms.
    assert_eq!(p.rect.x, 50_000);
    // A very long frame runs into the clamp: half-width minus half-paddle.
    paddle_movement(&mut p, &mut s, &mut t, &input, 10_000);
    assert_eq!(p.rect.x, 640_000 - 100_000);
    // And the meter and timer were untouched without boost.
    assert_eq!(s.boost, 100_000);
    assert_eq!(t.elapsed, 500);
}

#[test]
fn paddle_keys_cancel() {
    let mut p = paddle();
    let mut s = default_state();
    let mut t = BoostTimer { elapsed: 500, period: 1_000 };
    let input = Input { left: true, right: true, boost: true };
    paddle_movement(&mut p, &mut s, &mut t, &input, 100);
    assert_eq!(p.rect.x, 0);
    // Cancelled keys engage no boost: no drain, no timer reset.
    assert_eq!(s.boost, 100_000);
    assert_eq!(t.elapsed, 500);
}

#[test]
fn boost_doubles_speed_drains_meter_and_resets_timer() {
    let mut p = paddle();
    let mut s = default_state();
    let mut t = BoostTimer { elapsed: 700, period: 1_000 };
    let input = Input { left: false, right: true, boost: true };
    paddle_movement(&mut p, &mut s, &mut t, &input, 100);
    assert_eq!(p.rect.x, 100_000);
    assert_eq!(s.boost, 95_000);
    assert_eq!(t.elapsed, 0);
}

#[test]
fn empty_meter_grants_no_doubling_and_never_goes_negative() {
    let mut p = paddle();
    let mut s = State { boost: 400, ..default_state() };
    let mut t = BoostTimer { elapsed: 0, period: 1_000 };
    let input = Input { left: true, right: false, boost: true };
    // Still positive: doubled, and the drain clamps at empty.
    paddle_movement(&mut p, &mut s, &mut t, &input, 100);
    assert_eq!(p.rect.x, -100_000);
    assert_eq!(s.boost, 0);
    // Empty: base speed only, meter stays at zero.
    paddle_movement(&mut p, &mut s, &mut t, &input, 100);
    assert_eq!(p.rect.x, -150_000);
    assert_eq!(s.boost, 0);
}

#[test]
fn recharge_fires_once_per_full_period() {
    let mut s = State { boost: 20_000, ..default_state() };
    let mut t = BoostTimer { elapsed: 0, period: 1_000 };
    boost_recharge(&mut s, &mut t, 999);
    assert_eq!(s.boost, 20_000);
    boost_recharge(&mut s, &mut t, 1);
    assert_eq!(s.boost, 25_000);
    assert_eq!(t.elapsed, 0);
}

#[test]
fn recharge_clamps_at_full_meter() {
    let mut s = State { boost: 98_000, ..default_state() };
    let mut t = BoostTimer { elapsed: 0, period: 1_000 };
    boost_recharge(&mut s, &mut t, 2_500);
    assert_eq!(s.boost, 100_000);
}

#[test]
fn recharge_waits_a_full_period_after_boosting() {
    // Hold boost over several frames: the timer resets each one.
    let mut p = paddle();
    let mut s = default_state();
    let mut t = BoostTimer { elapsed: 0, period: 1_000 };
    let held = Input { left: false, right: true, boost: true };
    for _ in 0..5 {
        paddle_movement(&mut p, &mut s, &mut t, &held, 400);
        boost_recharge(&mut s, &mut t, 400);
    }
    let after_release = s.boost;
    // Released: the next increment comes at exactly one period, not before.
    boost_recharge(&mut s, &mut t, 599);
    assert_eq!(s.boost, after_release);
    boost_recharge(&mut s, &mut t, 1);
    assert_eq!(s.boost, after_release + 5_000);
}

#[test]
fn brick_takes_exactly_health_hits() {
    // A brick with health 3 struck three times is removed; struck twice it
    // stands at health 1 with the low-health tint at lookup-index 2.
    let brick = Brick { rect: Rect { x: 0, y: 0, hw: 25_000, hh: 25_000 }, health: 3 };
    let mut bricks = vec![brick];
    for expected_health in [2u32, 1u32] {
        let mut b = ball(-30_000, 1_000, 250, -250);
        brick_collision(&mut b, &mut bricks);
        assert_eq!(bricks.len(), 1);
        assert_eq!(bricks[0].health, expected_health);
    }
    assert_eq!(brick_color_index(bricks[0].health), 2);
    let mut b = ball(-30_000, 1_000, 250, -250);
    brick_collision(&mut b, &mut bricks);
    assert!(bricks.is_empty());
    // A later sweep finds nothing to strike.
    let mut c = ball(-30_000, 1_000, 250, -250);
    brick_collision(&mut c, &mut bricks);
    assert_eq!(c, ball(-30_000, 1_000, 250, -250));
}

#[test]
fn brick_damage_reflects_the_ball() {
    let brick = Brick { rect: Rect { x: 0, y: 0, hw: 25_000, hh: 25_000 }, health: 2 };
    let mut bricks = vec![brick];
    let mut b = ball(-38_000, 1_000, 250, -250);
    let before = speed_squared(&b);
    brick_collision(&mut b, &mut bricks);
    assert_eq!(b.vx, -250);
    assert_eq!(b.vy, -250);
    assert_eq!(speed_squared(&b), before);
    assert_eq!(b.rect.x, -25_000 - 15_000 - 100);
    assert_eq!(bricks[0].health, 1);
}

#[test]
fn untouched_bricks_keep_their_order() {
    let mut bricks = vec![
        Brick { rect: Rect { x: 0, y: 200_000, hw: 25_000, hh: 25_000 }, health: 3 },
        Brick { rect: Rect { x: 65_000, y: 200_000, hw: 25_000, hh: 25_000 }, health: 1 },
        Brick { rect: Rect { x: 130_000, y: 200_000, hw: 25_000, hh: 25_000 }, health: 2 },
    ];
    let mut b = ball(0, -100_000, 250, -250);
    brick_collision(&mut b, &mut bricks);
    assert_eq!(bricks.len(), 3);
    assert_eq!(bricks[0].rect.x, 0);
    assert_eq!(bricks[1].rect.x, 65_000);
    assert_eq!(bricks[2].rect.x, 130_000);
}

#[test]
fn brick_colors_follow_health() {
    assert_eq!(brick_color(3), (255, 255, 255));
    assert_eq!(brick_color(2), (255, 122, 0));
    assert_eq!(brick_color(1), (255, 0, 0));
    assert_eq!(brick_color_index(3), 0);
    assert_eq!(brick_color_index(1), 2);
}

#[test]
fn wall_collision_preserves_speed() {
    let walls = default_walls();
    let p = paddle();
    // Overlapping the right wall.
    let mut b = ball(630_000, 0, 250, -250);
    let before = speed_squared(&b);
    general_collision(&mut b, &walls, &p);
    assert_eq!(b.vx, -250);
    assert_eq!(b.vy, -250);
    assert_eq!(speed_squared(&b), before);
    assert_eq!(b.rect.x, 650_000 - 10_000 - 15_000 - 100);
}

#[test]
fn boost_display_projects_the_meter() {
    let mut hud = default_hud();
    let s = State { boost: 50_000, ..default_state() };
    boost_display(&mut hud, &s);
    // Half a meter: half the bar's half-width.
    assert_eq!(hud.bar.hw, 50_000);
    assert_eq!(hud.bar.hh, 7_500);
    // Anchor minus the missing half of the meter.
    assert_eq!(hud.bar.x, -640_000 + 100_000 + 30_000 - 50_000);
    assert_eq!(hud.bar.y, 322_500);
    assert_eq!(hud.background, default_hud().background);
}

#[test]
fn resize_recentres_the_walls() {
    // Resized to width 1000 pixels: the side walls recentre to half the new
    // width plus half their thickness.
    let mut s = default_state();
    let mut walls = default_walls();
    let mut hud = default_hud();
    let events = vec![ResizeEvent { width: 1_000_000, height: 720_000 }];
    window_resize(&mut s, &mut walls, &mut hud, &events);
    assert_eq!(walls[0].rect.x, -500_000 - 10_000);
    assert_eq!(walls[1].rect.x, 500_000 + 10_000);
    assert_eq!(walls[2].rect.y, 360_000 + 10_000);
    assert_eq!(walls[2].rect.hw, 500_000);
    assert_eq!(s.window_width, 1_000_000);
    assert_eq!(hud.bar.x, -500_000 + 100_000 + 30_000);
    assert_eq!(hud.bar.y, 360_000 - 7_500 - 30_000);
}

#[test]
fn resize_is_idempotent() {
    let mut s = default_state();
    let mut walls = default_walls();
    let mut hud = default_hud();
    let events = vec![
        ResizeEvent { width: 900_000, height: 600_000 },
        ResizeEvent { width: 900_000, height: 600_000 },
    ];
    window_resize(&mut s, &mut walls, &mut hud, &events);
    let (s1, w1, h1) = (s, walls.clone(), hud);
    let events_again = vec![ResizeEvent { width: 900_000, height: 600_000 }];
    window_resize(&mut s, &mut walls, &mut hud, &events_again);
    assert_eq!(s, s1);
    assert_eq!(walls, w1);
    assert_eq!(hud, h1);
}

#[test]
fn startup_lays_out_the_default_scene() {
    // Draws under the threshold spawn a brick, draws at or over it do not.
    let mut randoms = vec![599u64; 57];
    randoms[1] = 600;
    randoms[2] = 999;
    let w = startup(&randoms);
    assert_eq!(w.bricks.len(), 55);
    // Cell 0: column 0, row 0.
    assert_eq!(w.bricks[0].rect.x, -585_000);
    assert_eq!(w.bricks[0].rect.y, 250_000);
    // The next surviving cell is cell 3: column 1, row 0.
    assert_eq!(w.bricks[1].rect.x, -585_000 + 65_000);
    assert_eq!(w.bricks[1].rect.y, 250_000);
    assert!(w.bricks.iter().all(|b| b.health == 3));
    assert_eq!(w.walls[0].rect.x, -650_000);
    assert_eq!(w.walls[1].rect.x, 650_000);
    assert_eq!(w.walls[2].rect.y, 370_000);
    assert_eq!(w.paddle.rect, Rect { x: 0, y: -300_000, hw: 100_000, hh: 25_000 });
    assert_eq!(w.ball, ball(-150_000, 0, 250, -250));
    assert_eq!(w.state.boost, 100_000);
    assert_eq!(w.timer.period, 1_000);
    assert_eq!(w.hud.bar.x, -510_000);
    assert_eq!(w.hud.bar.y, 322_500);
}

#[test]
fn spawn_world_draws_a_fresh_grid() {
    let w = spawn_world();
    assert!(w.bricks.len() <= 57);
    assert!(w.bricks.iter().all(|b| b.health == 3));
    assert_eq!(w.walls.len(), 3);
    assert_eq!(w.ball, ball(-150_000, 0, 250, -250));
    assert!(w.state.boost == 100_000);
}

#[test]
fn ball_bounces_off_the_paddle_top() {
    // Ball at the origin with velocity (250, -250) in a narrow arena: it
    // bounces off the right wall, comes back over the paddle, and is
    // reflected upward, repositioned flush above the paddle top.
    let mut w = world_without_bricks();
    let shrink = vec![ResizeEvent { width: 400_000, height: 720_000 }];
    window_resize(&mut w.state, &mut w.walls, &mut w.hud, &shrink);
    w.ball = ball(0, 0, 250, -250);
    let idle = Input { left: false, right: false, boost: false };
    let no_events: Vec<ResizeEvent> = Vec::new();
    let mut bounced_up = false;
    for _ in 0..80 {
        frame(&mut w, &idle, 16, &no_events);
        if w.ball.vy > 0 {
            bounced_up = true;
            break;
        }
    }
    assert!(bounced_up);
    // The strike happened over the paddle: the centres' distance is under
    // the paddle and ball half-widths combined.
    assert!((w.ball.rect.x - w.paddle.rect.x).abs() < 100_000 + 15_000);
    assert_eq!(w.ball.vy, 250);
    assert_eq!(w.ball.vx, -250);
    // Flush above the paddle top plus the outward offset.
    assert_eq!(w.ball.rect.y, -300_000 + 25_000 + 15_000 + 100);
}

#[test]
fn frame_keeps_the_meter_in_range_under_mixed_input() {
    let mut w = world_without_bricks();
    let no_events: Vec<ResizeEvent> = Vec::new();
    let boosting = Input { left: false, right: true, boost: true };
    let idle = Input { left: false, right: false, boost: false };
    for i in 0..400 {
        let input = if i % 3 == 0 { idle } else { boosting };
        frame(&mut w, &input, 16, &no_events);
        assert!(w.state.boost >= 0 && w.state.boost <= 100_000);
        let bound = (w.state.window_width / 2) as i64 - w.paddle.rect.hw;
        assert!(w.paddle.rect.x.abs() <= bound);
    }
}
