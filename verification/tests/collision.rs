//! Collision resolver behaviour: the paddle box test, wall reflection,
//! direction gating, and idempotence of a full resolver pass.

use pong_core::entities::{Ball, Paddle, Side};
use pong_core::settings::{Arena, ARENA_HEIGHT, ARENA_WIDTH};
use pong_core::systems::collision::has_paddle_collision;
use pong_core::systems::CollisionSystem;

#[test]
fn should_assert_paddle_collision() {
    // arrange - ball within the paddle ranges (milli-units)
    let paddle_width = 4_000;
    let paddle_height = 10_000;

    let ball_x = 18_000;
    let ball_y = 25_000;

    let paddle_x = 20_000; //  18 <= paddle_range_x <= 22
    let paddle_y = 20_000; //  15 <= paddle_range_y <= 25

    // act
    let has_collision = has_paddle_collision(
        ball_x,
        ball_y,
        paddle_x,
        paddle_y,
        paddle_width,
        paddle_height,
    );

    // assert
    assert_eq!(true, has_collision);
}

#[test]
fn should_assert_paddle_collision_on_edge() {
    // arrange - ball within the paddle ranges (milli-units)
    let paddle_width = 4_000;
    let paddle_height = 10_000;

    let ball_x = 22_000;
    let ball_y = 25_000;

    let paddle_x = 20_000; //  18 <= paddle_range_x <= 22
    let paddle_y = 20_000; //  15 <= paddle_range_y <= 25

    // act
    let has_collision = has_paddle_collision(
        ball_x,
        ball_y,
        paddle_x,
        paddle_y,
        paddle_width,
        paddle_height,
    );

    // assert
    assert_eq!(true, has_collision);
}

#[test]
fn should_assert_no_paddle_collision() {
    // arrange - ball outside the paddle ranges (milli-units)
    let paddle_width = 4_000;
    let paddle_height = 10_000;

    let ball_x = 2_000;
    let ball_y = 2_000;

    let paddle_x = 20_000; //  18 <= paddle_range_x <= 22
    let paddle_y = 20_000; //  15 <= paddle_range_y <= 25

    // act
    let has_collision = has_paddle_collision(
        ball_x,
        ball_y,
        paddle_x,
        paddle_y,
        paddle_width,
        paddle_height,
    );

    // assert
    assert_eq!(false, has_collision);
}

#[test]
fn reflects_ball_touching_bottom_wall_while_moving_down() {
    // Ball at y = radius - 0.01 units, moving down: reflected upward.
    let arena = Arena::new(ARENA_WIDTH, ARENA_HEIGHT);
    let collision_system = CollisionSystem;
    let paddles: Vec<Paddle> = Vec::new();
    let mut ball = Ball::new(50_000, 1_990, 0, -5, 2_000);
    let bounces = collision_system.run(&mut ball, &paddles, &arena);
    assert_eq!(ball.vy, 5);
    assert_eq!(bounces, 0);
}

#[test]
fn leaves_ball_not_yet_touching_a_wall_alone() {
    // Ball at y = radius + 5 units, moving down: not yet touching.
    let arena = Arena::new(ARENA_WIDTH, ARENA_HEIGHT);
    let collision_system = CollisionSystem;
    let paddles: Vec<Paddle> = Vec::new();
    let mut ball = Ball::new(50_000, 7_000, 0, -5, 2_000);
    let bounces = collision_system.run(&mut ball, &paddles, &arena);
    assert_eq!(ball.vy, -5);
    assert_eq!(bounces, 0);
}

#[test]
fn reflects_ball_touching_top_wall_while_moving_up() {
    let arena = Arena::new(ARENA_WIDTH, ARENA_HEIGHT);
    let collision_system = CollisionSystem;
    let paddles: Vec<Paddle> = Vec::new();
    let mut ball = Ball::new(50_000, 98_010, 0, 5, 2_000);
    let bounces = collision_system.run(&mut ball, &paddles, &arena);
    assert_eq!(ball.vy, -5);
    assert_eq!(bounces, 0);
}

#[test]
fn bounces_ball_off_the_paddle_it_moves_toward() {
    let arena = Arena::new(ARENA_WIDTH, ARENA_HEIGHT);
    let collision_system = CollisionSystem;
    let paddles = vec![
        Paddle::new(Side::Left, &arena),
        Paddle::new(Side::Right, &arena),
    ];
    // Inside the left paddle's box (x in [0, 4], y in [42, 58]), moving left.
    let mut ball = Ball::new(2_000, 50_000, -75, 50, 2_000);
    let bounces = collision_system.run(&mut ball, &paddles, &arena);
    assert_eq!(ball.vx, 75);
    assert_eq!(bounces, 1);
}

#[test]
fn ignores_paddle_overlap_while_moving_away() {
    let arena = Arena::new(ARENA_WIDTH, ARENA_HEIGHT);
    let collision_system = CollisionSystem;
    let paddles = vec![
        Paddle::new(Side::Left, &arena),
        Paddle::new(Side::Right, &arena),
    ];
    // Inside the left paddle's box but already moving right.
    let mut ball = Ball::new(2_000, 50_000, 75, 50, 2_000);
    let bounces = collision_system.run(&mut ball, &paddles, &arena);
    assert_eq!(ball.vx, 75);
    assert_eq!(bounces, 0);
}

#[test]
fn second_resolver_pass_flips_nothing_further() {
    // Ball in the bottom-left corner: touching the bottom wall and inside
    // the left paddle's box, moving down-left. One pass reflects both
    // velocity components; a second pass over the same position is a
    // no-op.
    let arena = Arena::new(ARENA_WIDTH, ARENA_HEIGHT);
    let collision_system = CollisionSystem;
    let paddles = vec![
        Paddle::new(Side::Left, &arena),
        Paddle::new(Side::Right, &arena),
    ];
    let mut ball = Ball::new(2_000, 43_000, -75, -50, 44_000);
    let first = collision_system.run(&mut ball, &paddles, &arena);
    assert_eq!(ball.vx, 75);
    assert_eq!(ball.vy, 50);
    assert_eq!(first, 1);

    let second = collision_system.run(&mut ball, &paddles, &arena);
    assert_eq!(ball.vx, 75);
    assert_eq!(ball.vy, 50);
    assert_eq!(second, 0);
}
