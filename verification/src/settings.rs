//! Fixed configuration of the game: arena geometry, entity dimensions and
//! speeds, all in the fixed-point encoding described at the crate root.

use vstd::prelude::*;

verus! {

/// Milli-units in one arena unit (and milli-axis-units in a full axis
/// deflection).
pub const MILLI: i64 = 1000;

/// Arena width, in milli-units (100 arena units).
pub const ARENA_WIDTH: i64 = 100_000;

/// Arena height, in milli-units (100 arena units).
pub const ARENA_HEIGHT: i64 = 100_000;

/// Initial horizontal ball velocity, in milli-units per millisecond
/// (75 arena units per second).
pub const BALL_VELOCITY_X: i64 = 75;

/// Initial vertical ball velocity, in milli-units per millisecond
/// (50 arena units per second).
pub const BALL_VELOCITY_Y: i64 = 50;

/// Ball radius, in milli-units (2 arena units).
pub const BALL_RADIUS: i64 = 2_000;

/// Paddle width, in milli-units (4 arena units).
pub const PADDLE_WIDTH: i64 = 4_000;

/// Paddle height, in milli-units (16 arena units).
pub const PADDLE_HEIGHT: i64 = 16_000;

/// Paddle speed scale, in milli-units of travel per full axis deflection
/// (1.2 arena units per axis unit, applied once per tick).
pub const PADDLE_SPEED: i64 = 1_200;

/// The play field: the rectangle from the origin to `(width, height)`,
/// in milli-units. Left and right edges are the goal lines; top and bottom
/// edges are reflecting walls.
pub struct Arena {
    pub width: i64,
    pub height: i64,
}

impl Arena {
    /// A usable arena has positive extent in both directions.
    pub open spec fn valid(self) -> bool {
        0 < self.width && 0 < self.height
    }

    pub fn new(width: i64, height: i64) -> (arena: Arena)
        requires
            0 < width,
            0 < height,
        ensures
            arena.width == width,
            arena.height == height,
            arena.valid(),
    {
        Arena { width, height }
    }
}

} // verus!
