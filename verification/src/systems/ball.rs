//! Movement integrator: advances the ball by its velocity scaled by the
//! elapsed time.

use vstd::prelude::*;

use vstd::arithmetic::mul::lemma_mul_is_distributive_add;

use crate::entities::Ball;

verus! {

/// Where a coordinate ends up after moving at `v` for `dt`: linear motion,
/// exact in the fixed-point encoding (milli-units, milli-units per
/// millisecond, milliseconds).
pub open spec fn integrated(p: int, v: int, dt: int) -> int {
    p + v * dt
}

/// Movement integrator. Stateless; one `run` per tick.
pub struct BallSystem;

impl BallSystem {
    /// Advances the ball's position by `velocity * dt`, independently per
    /// axis. `dt` is the time since the previous tick, in milliseconds;
    /// `dt == 0` is a no-op. Velocity and radius are untouched.
    pub fn run(&self, ball: &mut Ball, dt: i64)
        requires
            0 <= dt,
            i64::MIN <= old(ball).vx * dt <= i64::MAX,
            i64::MIN <= old(ball).vy * dt <= i64::MAX,
            i64::MIN <= old(ball).x + old(ball).vx * dt <= i64::MAX,
            i64::MIN <= old(ball).y + old(ball).vy * dt <= i64::MAX,
        ensures
            final(ball).x == integrated(old(ball).x as int, old(ball).vx as int, dt as int),
            final(ball).y == integrated(old(ball).y as int, old(ball).vy as int, dt as int),
            final(ball).vx == old(ball).vx,
            final(ball).vy == old(ball).vy,
            final(ball).radius == old(ball).radius,
    {
        ball.x = ball.x + ball.vx * dt;
        ball.y = ball.y + ball.vy * dt;
    }
}

/// Linear motion is additive in time: integrating for `dt1` and then for
/// `dt2` lands exactly where integrating once for `dt1 + dt2` does.
pub proof fn lemma_integration_additive(p: int, v: int, dt1: int, dt2: int)
    requires
        0 <= dt1,
        0 <= dt2,
    ensures
        integrated(integrated(p, v, dt1), v, dt2) == integrated(p, v, dt1 + dt2),
{
    lemma_mul_is_distributive_add(v, dt1, dt2);
}

} // verus!
