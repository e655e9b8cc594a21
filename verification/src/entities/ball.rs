//! The ball: a moving circle with a position, a velocity and a radius.

use vstd::prelude::*;

use crate::settings::Arena;
use crate::settings::BALL_RADIUS;
use crate::settings::BALL_VELOCITY_X;
use crate::settings::BALL_VELOCITY_Y;

verus! {

/// The ball. Position and radius are in milli-units; velocity is in
/// milli-units per millisecond. The position may leave the arena
/// horizontally for a moment (the scoring judge then resets it), while the
/// collision resolver keeps it inside vertically.
#[derive(Clone, Copy, Debug)]
pub struct Ball {
    pub x: i64,
    pub y: i64,
    pub vx: i64,
    pub vy: i64,
    pub radius: i64,
}

impl Ball {
    /// A ball's radius is always positive.
    pub open spec fn wf(self) -> bool {
        0 < self.radius
    }

    pub fn new(x: i64, y: i64, vx: i64, vy: i64, radius: i64) -> (ball: Ball)
        requires
            0 < radius,
        ensures
            ball == (Ball { x, y, vx, vy, radius }),
            ball.wf(),
    {
        Ball { x, y, vx, vy, radius }
    }

    /// A freshly served ball: at the arena centre, with the standard
    /// radius, heading at the standard velocity.
    pub fn spawn(arena: &Arena) -> (ball: Ball)
        requires
            arena.valid(),
        ensures
            ball.x == arena.width / 2,
            ball.y == arena.height / 2,
            ball.vx == BALL_VELOCITY_X,
            ball.vy == BALL_VELOCITY_Y,
            ball.radius == BALL_RADIUS,
            ball.wf(),
    {
        Ball {
            x: arena.width / 2,
            y: arena.height / 2,
            vx: BALL_VELOCITY_X,
            vy: BALL_VELOCITY_Y,
            radius: BALL_RADIUS,
        }
    }
}

} // verus!
