use breakout::geometry::Vec2;
use breakout::world::Ball;
use breakout::world::World;

fn world_with(pos: Vec2, vel: Vec2, paddle_x: i64) -> World {
    World { ball: Ball { pos, vel }, paddle_x }
}

#[test]
fn new_world_matches_the_starting_scene() {
    let w = World::new();
    assert_eq!(w.ball.pos, Vec2 { x: -75_000_000, y: 75_000_000 });
    assert_eq!(w.ball.vel, Vec2 { x: 283, y: -283 });
    assert_eq!(w.paddle_x, 0);
}

#[test]
fn integration_adds_velocity_times_elapsed_time() {
    let mut w = world_with(Vec2 { x: 1_000_000, y: 2_000_000 }, Vec2 { x: 3, y: -4 }, 0);
    w.apply_velocity(500_000);
    assert_eq!(w.ball.pos, Vec2 { x: 2_500_000, y: 0 });
    assert_eq!(w.ball.vel, Vec2 { x: 3, y: -4 });
}

#[test]
fn integration_with_zero_elapsed_time_is_a_no_op() {
    let mut w = World::new();
    w.apply_velocity(0);
    assert_eq!(w.ball.pos, Vec2 { x: -75_000_000, y: 75_000_000 });
}

#[test]
fn noop_tick_changes_nothing() {
    let mut w = world_with(Vec2 { x: -75_000_000, y: 75_000_000 }, Vec2 { x: 0, y: 0 }, 100_000_000);
    w.tick(false, false, 16_667);
    assert_eq!(w.ball.pos, Vec2 { x: -75_000_000, y: 75_000_000 });
    assert_eq!(w.ball.vel, Vec2 { x: 0, y: 0 });
    assert_eq!(w.paddle_x, 100_000_000);
}

#[test]
fn paddle_moves_left_and_right() {
    let mut w = World::new();
    w.move_paddle(false, true, 100_000);
    assert_eq!(w.paddle_x, 50_000_000);
    w.move_paddle(true, false, 100_000);
    assert_eq!(w.paddle_x, 0);
}

#[test]
fn both_or_neither_key_cancel_to_no_motion() {
    let mut w = World::new();
    w.move_paddle(true, true, 100_000);
    assert_eq!(w.paddle_x, 0);
    w.move_paddle(false, false, 100_000);
    assert_eq!(w.paddle_x, 0);
}

#[test]
fn paddle_clamps_at_the_right_boundary() {
    let mut w = world_with(Vec2 { x: 0, y: 75_000_000 }, Vec2 { x: 0, y: 0 }, 440_000_000);
    w.move_paddle(false, true, 16_667);
    assert_eq!(w.paddle_x, 385_000_000);
}

#[test]
fn paddle_clamps_at_the_left_boundary() {
    let mut w = world_with(Vec2 { x: 0, y: 75_000_000 }, Vec2 { x: 0, y: 0 }, -380_000_000);
    w.move_paddle(true, false, 100_000);
    assert_eq!(w.paddle_x, -385_000_000);
}

#[test]
fn ball_bounces_off_the_bottom_wall() {
    let mut w = world_with(Vec2 { x: 0, y: -294_000_000 }, Vec2 { x: 0, y: -400 }, 0);
    w.check_ball_collision();
    assert_eq!(w.ball.vel, Vec2 { x: 0, y: 420 });
    assert_eq!(w.ball.pos, Vec2 { x: 0, y: -294_000_000 });
}

#[test]
fn ball_bounces_off_the_left_wall() {
    let mut w = world_with(Vec2 { x: -440_000_000, y: 0 }, Vec2 { x: -300, y: 0 }, 0);
    w.check_ball_collision();
    assert_eq!(w.ball.vel, Vec2 { x: 315, y: 0 });
}

#[test]
fn ball_moving_away_from_a_wall_is_not_reflected() {
    let mut w = world_with(Vec2 { x: -440_000_000, y: 0 }, Vec2 { x: 300, y: 0 }, 0);
    w.check_ball_collision();
    assert_eq!(w.ball.vel, Vec2 { x: 300, y: 0 });
}

#[test]
fn ball_bounces_off_the_paddle() {
    let mut w = world_with(Vec2 { x: 0, y: 20_000_000 }, Vec2 { x: 0, y: -200 }, 0);
    w.check_ball_collision();
    assert_eq!(w.ball.vel, Vec2 { x: 0, y: 210 });
}

#[test]
fn reflection_magnitude_rounds_down() {
    let mut w = world_with(Vec2 { x: -440_000_000, y: 0 }, Vec2 { x: -19, y: 0 }, 0);
    w.check_ball_collision();
    assert_eq!(w.ball.vel, Vec2 { x: 19, y: 0 });
}

#[test]
fn corner_hit_reflects_both_axes_in_one_tick() {
    let mut w = world_with(Vec2 { x: -440_000_000, y: -290_000_000 }, Vec2 { x: -300, y: -400 }, 0);
    w.check_ball_collision();
    assert_eq!(w.ball.vel, Vec2 { x: 315, y: 420 });
}

#[test]
fn tick_runs_integration_paddle_and_collisions_in_order() {
    let mut w = world_with(Vec2 { x: 0, y: -293_999_000 }, Vec2 { x: 0, y: -1000 }, 384_900_000);
    w.tick(false, true, 1_000);
    assert_eq!(w.ball.pos, Vec2 { x: 0, y: -294_999_000 });
    assert_eq!(w.ball.vel, Vec2 { x: 0, y: 1050 });
    assert_eq!(w.paddle_x, 385_000_000);
}
