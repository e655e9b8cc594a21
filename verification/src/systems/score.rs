//! Scoring judge: detects the ball passing a goal line, awards the point,
//! keeps the displayed score text in step with the counter, and serves the
//! ball again from the centre.

use vstd::prelude::*;

use crate::entities::Ball;
use crate::entities::score::decimal_value;
use crate::entities::score::displays;
use crate::entities::score::parse_score;
use crate::entities::score::parses;
use crate::entities::score::render_score;
use crate::entities::ScoreBoard;
use crate::entities::ScoreError;
use crate::entities::ScoreText;
use crate::entities::Side;
use crate::settings::Arena;

verus! {

/// Which side was beaten by a ball at `x` with radius `r` in an arena of
/// width `w`: the left side when the ball touches or passes the left goal
/// line (checked first), the right side at the right goal line, neither
/// otherwise. The opponent of the beaten side gets the point.
pub open spec fn beaten_side(x: int, r: int, w: int) -> Option<Side> {
    if x <= r {
        Some(Side::Left)
    } else if x >= w - r {
        Some(Side::Right)
    } else {
        None
    }
}

/// Scoring judge. Stateless; one `run` per tick.
pub struct ScoreSystem;

impl ScoreSystem {
    /// The side that was beaten by this ball position, per `beaten_side`,
    /// or `None` while the ball is still in play.
    pub fn has_player_scored(&self, ball_x: i64, ball_radius: i64, arena_width: i64) -> (beaten:
        Option<Side>)
        requires
            i64::MIN <= arena_width - ball_radius <= i64::MAX,
        ensures
            beaten == beaten_side(ball_x as int, ball_radius as int, arena_width as int),
    {
        if ball_x <= ball_radius {
            Some(Side::Left)
        } else if ball_x >= arena_width - ball_radius {
            Some(Side::Right)
        } else {
            None
        }
    }

    /// One judge pass. If the ball has beaten a side: parse that side's
    /// opponent's displayed score, and
    /// - on a well-formed display, increment the display and the opposing
    ///   counter by exactly one, reset the ball to the arena centre and
    ///   reverse its horizontal velocity (it departs toward the beaten
    ///   side);
    /// - on a malformed display, change nothing and report the error, so
    ///   the counter and the display cannot drift apart.
    /// While the ball is in play, nothing changes.
    pub fn run(
        &self,
        ball: &mut Ball,
        scoreboard: &mut ScoreBoard,
        score_text: &mut ScoreText,
        arena: &Arena,
    ) -> (outcome: Result<(), ScoreError>)
        requires
            arena.valid(),
            old(ball).wf(),
            i64::MIN < old(ball).vx,
            old(scoreboard).score_left < u32::MAX,
            old(scoreboard).score_right < u32::MAX,
        ensures
            ({
                let beaten = beaten_side(
                    old(ball).x as int,
                    old(ball).radius as int,
                    arena.width as int,
                );
                match beaten {
                    None => outcome == Ok::<(), ScoreError>(())
                        && *final(ball) == *old(ball)
                        && *final(scoreboard) == *old(scoreboard)
                        && final(score_text).p1_score == old(score_text).p1_score
                        && final(score_text).p2_score == old(score_text).p2_score,
                    Some(side) => {
                        let slot = if side == Side::Left {
                            old(score_text).p2_score@
                        } else {
                            old(score_text).p1_score@
                        };
                        if parses(slot) {
                            outcome == Ok::<(), ScoreError>(())
                                && final(ball).x == arena.width / 2
                                && final(ball).y == arena.height / 2
                                && final(ball).vx == -old(ball).vx
                                && final(ball).vy == old(ball).vy
                                && final(ball).radius == old(ball).radius
                                && (side == Side::Left ==> {
                                    &&& final(scoreboard).score_right
                                        == old(scoreboard).score_right + 1
                                    &&& final(scoreboard).score_left == old(scoreboard).score_left
                                    &&& displays(
                                        final(score_text).p2_score@,
                                        decimal_value(slot) + 1,
                                    )
                                    &&& decimal_value(slot) + 1 <= 999_999_999 ==> parses(
                                        final(score_text).p2_score@,
                                    )
                                    &&& final(score_text).p1_score == old(score_text).p1_score
                                })
                                && (side == Side::Right ==> {
                                    &&& final(scoreboard).score_left
                                        == old(scoreboard).score_left + 1
                                    &&& final(scoreboard).score_right
                                        == old(scoreboard).score_right
                                    &&& displays(
                                        final(score_text).p1_score@,
                                        decimal_value(slot) + 1,
                                    )
                                    &&& decimal_value(slot) + 1 <= 999_999_999 ==> parses(
                                        final(score_text).p1_score@,
                                    )
                                    &&& final(score_text).p2_score == old(score_text).p2_score
                                })
                        } else {
                            outcome == Err::<(), ScoreError>(ScoreError::MalformedDisplay)
                                && *final(ball) == *old(ball)
                                && *final(scoreboard) == *old(scoreboard)
                                && final(score_text).p1_score == old(score_text).p1_score
                                && final(score_text).p2_score == old(score_text).p2_score
                        }
                    },
                }
            }),
    {
        let beaten = self.has_player_scored(ball.x, ball.radius, arena.width);
        match beaten {
            None => Ok(()),
            Some(side) => {
                let parsed = match side {
                    Side::Left => parse_score(&score_text.p2_score),
                    Side::Right => parse_score(&score_text.p1_score),
                };
                match parsed {
                    None => Err(ScoreError::MalformedDisplay),
                    Some(score) => {
                        match side {
                            Side::Left => {
                                scoreboard.score_right = scoreboard.score_right + 1;
                                score_text.p2_score = render_score(score + 1);
                            },
                            Side::Right => {
                                scoreboard.score_left = scoreboard.score_left + 1;
                                score_text.p1_score = render_score(score + 1);
                            },
                        }
                        ball.x = arena.width / 2;
                        ball.y = arena.height / 2;
                        ball.vx = -ball.vx;
                        Ok(())
                    },
                }
            },
        }
    }
}

} // verus!
