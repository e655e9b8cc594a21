//! Match state behaviour: the serve countdown and entity construction.

use pong_core::entities::{Ball, Paddle, Side};
use pong_core::pong::Pong;
use pong_core::settings::{
    Arena, ARENA_HEIGHT, ARENA_WIDTH, BALL_RADIUS, BALL_VELOCITY_X, BALL_VELOCITY_Y,
    PADDLE_HEIGHT, PADDLE_WIDTH,
};

#[test]
fn serve_countdown_fires_once_after_one_second() {
    let mut game = Pong::new();
    assert_eq!(game.update(100), false); // not armed yet

    game.on_start();
    assert_eq!(game.ball_spawn_timer, Some(1_000));
    assert_eq!(game.update(400), false);
    assert_eq!(game.ball_spawn_timer, Some(600));
    assert_eq!(game.update(601), true); // countdown just ran out
    assert_eq!(game.ball_spawn_timer, None);
    assert_eq!(game.update(16), false); // disarmed: never fires again
}

#[test]
fn countdown_reaching_exactly_zero_waits_one_more_tick() {
    let mut game = Pong::new();
    game.on_start();
    assert_eq!(game.update(1_000), false); // 0 left: not yet below zero
    assert_eq!(game.ball_spawn_timer, Some(0));
    assert_eq!(game.update(1), true);
}

#[test]
fn served_ball_starts_centred_with_the_standard_velocity() {
    let arena = Arena::new(ARENA_WIDTH, ARENA_HEIGHT);
    let ball = Ball::spawn(&arena);
    assert_eq!(ball.x, 50_000);
    assert_eq!(ball.y, 50_000);
    assert_eq!(ball.vx, BALL_VELOCITY_X);
    assert_eq!(ball.vy, BALL_VELOCITY_Y);
    assert_eq!(ball.radius, BALL_RADIUS);
}

#[test]
fn paddles_start_centred_on_their_goal_lines() {
    let arena = Arena::new(ARENA_WIDTH, ARENA_HEIGHT);
    let left = Paddle::new(Side::Left, &arena);
    let right = Paddle::new(Side::Right, &arena);
    assert_eq!(left.x, PADDLE_WIDTH / 2);
    assert_eq!(right.x, ARENA_WIDTH - PADDLE_WIDTH / 2);
    assert_eq!(left.y, 50_000);
    assert_eq!(right.y, 50_000);
    assert_eq!(left.width, PADDLE_WIDTH);
    assert_eq!(left.height, PADDLE_HEIGHT);
    assert_eq!(left.side, Side::Left);
    assert_eq!(right.side, Side::Right);
}
