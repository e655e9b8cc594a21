//! Collision resolver: reflects the ball's vertical velocity off the top
//! and bottom walls, and its horizontal velocity off the paddles. Each
//! reflection only fires while the ball is moving toward what it touches,
//! so an overlap that lasts several ticks is reflected once.

use vstd::prelude::*;

use crate::entities::Ball;
use crate::entities::Paddle;
use crate::entities::Side;
use crate::settings::Arena;

verus! {

/// The ball, at height `y` with radius `r`, is touching or past the bottom
/// wall while still moving down, or the top wall (arena height `h`) while
/// still moving up. Only then is the vertical velocity reflected.
pub open spec fn wall_bounce(y: int, vy: int, r: int, h: int) -> bool {
    (y < r && vy < 0) || (y > h - r && vy > 0)
}

/// The vertical velocity after the wall check: reflected exactly when
/// `wall_bounce` holds.
pub open spec fn vy_past_wall(y: int, vy: int, r: int, h: int) -> int {
    if wall_bounce(y, vy, r, h) {
        -vy
    } else {
        vy
    }
}

/// The point `(bx, by)` lies in the box of width `w` and height `h`
/// centred at `(px, py)`; bounds inclusive.
pub open spec fn in_paddle_box(bx: int, by: int, px: int, py: int, w: int, h: int) -> bool {
    px - w / 2 <= bx <= px + w / 2 && py - h / 2 <= by <= py + h / 2
}

/// The ball's centre lies in this paddle's box.
pub open spec fn overlaps(p: Paddle, bx: int, by: int) -> bool {
    in_paddle_box(bx, by, p.x as int, p.y as int, p.width as int, p.height as int)
}

/// A ball with horizontal velocity `vx` is moving toward the given side's
/// paddle.
pub open spec fn moving_toward(side: Side, vx: int) -> bool {
    match side {
        Side::Left => vx < 0,
        Side::Right => vx > 0,
    }
}

/// One paddle's contribution: the horizontal velocity is reflected exactly
/// when the ball is inside the paddle's box and moving toward that
/// paddle's side.
pub open spec fn vx_past_one(p: Paddle, bx: int, by: int, vx: int) -> int {
    if overlaps(p, bx, by) && moving_toward(p.side, vx) {
        -vx
    } else {
        vx
    }
}

/// The horizontal velocity after the resolver has visited the paddles in
/// order, starting from `vx`.
pub open spec fn vx_past_paddles(paddles: Seq<Paddle>, bx: int, by: int, vx: int) -> int
    decreases paddles.len(),
{
    if paddles.len() == 0 {
        vx
    } else {
        vx_past_paddles(paddles.skip(1), bx, by, vx_past_one(paddles[0], bx, by, vx))
    }
}

/// How many paddle bounces the same pass produces (each one is reported to
/// the audio collaborator).
pub open spec fn bounces_past_paddles(paddles: Seq<Paddle>, bx: int, by: int, vx: int) -> nat
    decreases paddles.len(),
{
    if paddles.len() == 0 {
        0
    } else {
        (if overlaps(paddles[0], bx, by) && moving_toward(paddles[0].side, vx) {
            1nat
        } else {
            0nat
        }) + bounces_past_paddles(paddles.skip(1), bx, by, vx_past_one(paddles[0], bx, by, vx))
    }
}

/// The overflow bounds the resolver needs on a paddle's box edges
/// (machine limits only).
pub open spec fn box_fits(p: Paddle) -> bool {
    i64::MIN <= p.x - p.width / 2 && p.x + p.width / 2 <= i64::MAX
        && i64::MIN <= p.y - p.height / 2 && p.y + p.height / 2 <= i64::MAX
}

/// Whether the ball, at height `ball_y` and moving at `ball_velocity_y`,
/// must be reflected off the top or bottom wall this tick.
pub fn has_top_or_bottom_collision(
    ball_y: i64,
    ball_velocity_y: i64,
    ball_radius: i64,
    arena_height: i64,
) -> (collides: bool)
    requires
        i64::MIN <= arena_height - ball_radius <= i64::MAX,
    ensures
        collides == wall_bounce(ball_y as int, ball_velocity_y as int, ball_radius as int, arena_height as int),
{
    (ball_y < ball_radius && ball_velocity_y < 0)
        || (ball_y > arena_height - ball_radius && ball_velocity_y > 0)
}

/// Whether the ball's centre lies within the paddle's bounding box,
/// bounds inclusive.
pub fn has_paddle_collision(
    ball_x: i64,
    ball_y: i64,
    paddle_x: i64,
    paddle_y: i64,
    paddle_width: i64,
    paddle_height: i64,
) -> (collides: bool)
    requires
        0 <= paddle_width,
        0 <= paddle_height,
        i64::MIN <= paddle_x - paddle_width / 2 && paddle_x + paddle_width / 2 <= i64::MAX,
        i64::MIN <= paddle_y - paddle_height / 2 && paddle_y + paddle_height / 2 <= i64::MAX,
    ensures
        collides == in_paddle_box(
            ball_x as int,
            ball_y as int,
            paddle_x as int,
            paddle_y as int,
            paddle_width as int,
            paddle_height as int,
        ),
{
    let paddle_left = paddle_x - paddle_width / 2;
    let paddle_right = paddle_x + paddle_width / 2;
    let paddle_bottom = paddle_y - paddle_height / 2;
    let paddle_top = paddle_y + paddle_height / 2;
    (ball_x >= paddle_left && ball_x <= paddle_right)
        && (ball_y >= paddle_bottom && ball_y <= paddle_top)
}

/// Collision resolver. Stateless; one `run` per tick.
pub struct CollisionSystem;

impl CollisionSystem {
    /// One resolver pass: reflects `vy` off the walls per `wall_bounce`,
    /// then visits every paddle in order, reflecting `vx` per
    /// `vx_past_paddles`. The position and radius are untouched. Returns
    /// how many paddle bounces happened, for the driver to report to the
    /// audio collaborator (best effort, so a sound is only a return
    /// value here).
    pub fn run(&self, ball: &mut Ball, paddles: &Vec<Paddle>, arena: &Arena) -> (bounces: usize)
        requires
            arena.valid(),
            old(ball).wf(),
            i64::MIN < old(ball).vx,
            i64::MIN < old(ball).vy,
            forall|i: int| 0 <= i < paddles@.len() ==> (#[trigger] paddles@[i]).wf()
                && box_fits(paddles@[i]),
        ensures
            final(ball).x == old(ball).x,
            final(ball).y == old(ball).y,
            final(ball).radius == old(ball).radius,
            final(ball).vy == vy_past_wall(
                old(ball).y as int,
                old(ball).vy as int,
                old(ball).radius as int,
                arena.height as int,
            ),
            final(ball).vx == vx_past_paddles(
                paddles@,
                old(ball).x as int,
                old(ball).y as int,
                old(ball).vx as int,
            ),
            bounces == bounces_past_paddles(
                paddles@,
                old(ball).x as int,
                old(ball).y as int,
                old(ball).vx as int,
            ),
    {
        let ball_x = ball.x;
        let ball_y = ball.y;

        if has_top_or_bottom_collision(ball_y, ball.vy, ball.radius, arena.height) {
            ball.vy = -ball.vy;
        }

        let ghost all = paddles@;
        let ghost vx0 = ball.vx as int;
        let ghost vy1 = ball.vy;
        let ghost r0 = ball.radius;
        let n = paddles.len();
        let mut bounces: usize = 0;
        let mut i: usize = 0;
        proof {
            assert(all.skip(0) =~= all);
        }
        while i < n
            invariant
                i <= n,
                n == all.len(),
                paddles@ == all,
                bounces <= i,
                ball.x == ball_x,
                ball.y == ball_y,
                ball.vy == vy1,
                ball.radius == r0,
                i64::MIN < ball.vx,
                ball.vx == vx0 || ball.vx == -vx0,
                forall|j: int| 0 <= j < all.len() ==> (#[trigger] all[j]).wf() && box_fits(all[j]),
                vx_past_paddles(all, ball_x as int, ball_y as int, vx0)
                    == vx_past_paddles(all.skip(i as int), ball_x as int, ball_y as int, ball.vx as int),
                bounces_past_paddles(all, ball_x as int, ball_y as int, vx0)
                    == bounces + bounces_past_paddles(all.skip(i as int), ball_x as int, ball_y as int, ball.vx as int),
            decreases n - i,
        {
            let p = paddles[i];
            proof {
                assert(all.skip(i as int)[0] == all[i as int]);
                assert(all.skip(i as int).skip(1) =~= all.skip(i as int + 1));
            }
            if has_paddle_collision(ball_x, ball_y, p.x, p.y, p.width, p.height) {
                if (matches!(p.side, Side::Left) && ball.vx < 0)
                    || (matches!(p.side, Side::Right) && ball.vx > 0)
                {
                    ball.vx = -ball.vx;
                    bounces = bounces + 1;
                }
            }
            i = i + 1;
        }
        proof {
            assert(all.skip(n as int) =~= Seq::<Paddle>::empty());
        }
        bounces
    }
}

/// No paddle box contains the ball: the given point lies in none of them.
pub open spec fn clear_of_paddles(paddles: Seq<Paddle>, bx: int, by: int) -> bool {
    forall|i: int| 0 <= i < paddles.len() ==> !overlaps(#[trigger] paddles[i], bx, by)
}

/// At most one paddle box contains the ball (in the game the two boxes
/// are disjoint, so this always holds there).
pub open spec fn at_most_one_overlap(paddles: Seq<Paddle>, bx: int, by: int) -> bool {
    forall|i: int, j: int|
        #![trigger paddles[i], paddles[j]]
        0 <= i < paddles.len() && 0 <= j < paddles.len() && overlaps(paddles[i], bx, by)
            && overlaps(paddles[j], bx, by) ==> i == j
}

proof fn lemma_vx_unchanged_when_clear(paddles: Seq<Paddle>, bx: int, by: int, vx: int)
    requires
        clear_of_paddles(paddles, bx, by),
    ensures
        vx_past_paddles(paddles, bx, by, vx) == vx,
    decreases paddles.len(),
{
    if paddles.len() > 0 {
        assert(clear_of_paddles(paddles.skip(1), bx, by)) by {
            assert forall|i: int| 0 <= i < paddles.skip(1).len() implies !overlaps(
                #[trigger] paddles.skip(1)[i],
                bx,
                by,
            ) by {
                assert(paddles.skip(1)[i] == paddles[i + 1]);
            }
        }
        lemma_vx_unchanged_when_clear(paddles.skip(1), bx, by, vx);
    }
}

/// The wall check is idempotent: once the vertical velocity has been
/// reflected (or left alone), a second pass over the same position changes
/// nothing — the reflected ball is moving away from the wall it touched.
/// Needs the ball to fit between the two walls (`2 * r <= h`), or being
/// past the bottom wall would also mean being past the top one.
pub proof fn lemma_wall_reflection_idempotent(y: int, vy: int, r: int, h: int)
    requires
        2 * r <= h,
    ensures
        vy_past_wall(y, vy_past_wall(y, vy, r, h), r, h) == vy_past_wall(y, vy, r, h),
{
}

/// The paddle check is idempotent: a second resolver pass over the same
/// position flips nothing further. Needs the ball to be inside at most one
/// paddle box; with a box on each side both containing the ball, each pass
/// would flip the velocity back and forth.
pub proof fn lemma_paddle_reflection_idempotent(paddles: Seq<Paddle>, bx: int, by: int, vx: int)
    requires
        at_most_one_overlap(paddles, bx, by),
    ensures
        vx_past_paddles(paddles, bx, by, vx_past_paddles(paddles, bx, by, vx))
            == vx_past_paddles(paddles, bx, by, vx),
    decreases paddles.len(),
{
    if paddles.len() > 0 {
        let p = paddles[0];
        let rest = paddles.skip(1);
        assert forall|i: int, j: int|
            #![trigger rest[i], rest[j]]
            0 <= i < rest.len() && 0 <= j < rest.len() && overlaps(rest[i], bx, by) && overlaps(
                rest[j],
                bx,
                by,
            ) implies i == j by {
            assert(rest[i] == paddles[i + 1]);
            assert(rest[j] == paddles[j + 1]);
        }
        if overlaps(p, bx, by) {
            assert(clear_of_paddles(rest, bx, by)) by {
                assert forall|i: int| 0 <= i < rest.len() implies !overlaps(
                    #[trigger] rest[i],
                    bx,
                    by,
                ) by {
                    assert(rest[i] == paddles[i + 1]);
                }
            }
            let v1 = vx_past_one(p, bx, by, vx);
            lemma_vx_unchanged_when_clear(rest, bx, by, v1);
            lemma_vx_unchanged_when_clear(rest, bx, by, vx_past_one(p, bx, by, v1));
        } else {
            lemma_paddle_reflection_idempotent(rest, bx, by, vx);
        }
    }
}

} // verus!
