//! The two paddles and the side each one defends.

use vstd::prelude::*;

use crate::settings::Arena;
use crate::settings::PADDLE_HEIGHT;
use crate::settings::PADDLE_WIDTH;

verus! {

/// Identifies the left or the right paddle (and, for scoring, the side of
/// the arena that was beaten).
#[derive(Clone, Copy, Debug, PartialEq, Eq, Structural)]
pub enum Side {
    Left,
    Right,
}

/// A paddle: an axis-aligned box centred at `(x, y)`. The side is fixed at
/// creation; `x`, `width` and `height` never change afterwards either, and
/// only `y` moves, driven by the paddle controller.
///
/// All fields are in milli-units.
#[derive(Clone, Copy, Debug)]
pub struct Paddle {
    pub side: Side,
    pub x: i64,
    pub y: i64,
    pub width: i64,
    pub height: i64,
}

impl Paddle {
    /// A paddle's box must have positive extent in both directions.
    pub open spec fn wf(self) -> bool {
        0 < self.width && 0 < self.height
    }

    /// A paddle at its starting position: vertically centred, horizontally
    /// flush against its own goal line.
    pub fn new(side: Side, arena: &Arena) -> (paddle: Paddle)
        requires
            arena.valid(),
            PADDLE_WIDTH <= arena.width,
        ensures
            paddle.side == side,
            paddle.width == PADDLE_WIDTH,
            paddle.height == PADDLE_HEIGHT,
            paddle.y == arena.height / 2,
            side == Side::Left ==> paddle.x == PADDLE_WIDTH / 2,
            side == Side::Right ==> paddle.x == arena.width - PADDLE_WIDTH / 2,
            paddle.wf(),
    {
        let x: i64 = match side {
            Side::Left => PADDLE_WIDTH / 2,
            Side::Right => arena.width - PADDLE_WIDTH / 2,
        };
        Paddle { side, x, y: arena.height / 2, width: PADDLE_WIDTH, height: PADDLE_HEIGHT }
    }
}

} // verus!
