//! Match state outside the per-tick routines: the timer that delays the
//! first serve of the ball.

use vstd::prelude::*;

verus! {

/// The game state the driver keeps between ticks: a countdown, in
/// milliseconds, until the ball is served. `None` once the ball is out
/// (or before the match starts).
pub struct Pong {
    pub ball_spawn_timer: Option<i64>,
}

impl Pong {
    pub fn new() -> (game: Pong)
        ensures
            game.ball_spawn_timer is None,
    {
        Pong { ball_spawn_timer: None }
    }

    /// Arms the serve countdown: one second from now.
    pub fn on_start(&mut self)
        ensures
            final(self).ball_spawn_timer == Some(1000i64),
    {
        self.ball_spawn_timer = Some(1000);
    }

    /// Counts the serve timer down by `dt` milliseconds. Returns true
    /// exactly when the countdown has just run out, which is the moment
    /// the driver serves the ball; the timer is then disarmed.
    pub fn update(&mut self, dt: i64) -> (spawn: bool)
        requires
            0 <= dt,
            old(self).ball_spawn_timer matches Some(t) ==> i64::MIN + dt <= t,
        ensures
            spawn == (old(self).ball_spawn_timer matches Some(t) && t - dt < 0),
            final(self).ball_spawn_timer == (match old(self).ball_spawn_timer {
                None => None::<i64>,
                Some(t) => if t - dt < 0 { None } else { Some((t - dt) as i64) },
            }),
    {
        match self.ball_spawn_timer {
            None => false,
            Some(t) => {
                let remaining = t - dt;
                if remaining < 0 {
                    self.ball_spawn_timer = None;
                    true
                } else {
                    self.ball_spawn_timer = Some(remaining);
                    false
                }
            }
        }
    }
}

} // verus!
