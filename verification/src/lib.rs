//! Deterministic core of a two-paddle ball game.
//!
//! Every quantity is an integer in a fixed-point encoding, so each tick of
//! the simulation is exact arithmetic:
//! - positions, radii and box extents are in milli-units
//!   (one thousandth of an arena unit);
//! - velocities are in milli-units per millisecond, which is numerically
//!   the same as arena units per second;
//! - elapsed time is in milliseconds;
//! - input axis values are in milli-axis-units (full deflection is 1000).
//!
//! Moving a position by `velocity * dt` therefore needs no rounding at all,
//! and the collision, clamping and scoring rules are decided by exact
//! comparisons.

pub mod entities;
pub mod pong;
pub mod settings;
pub mod systems;
