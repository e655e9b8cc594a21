//! Paddle controller: moves each paddle by its side's input axis value,
//! clamped so the paddle never leaves the arena vertically.

use vstd::prelude::*;

use crate::entities::Paddle;
use crate::entities::Side;
use crate::settings::Arena;
use crate::settings::MILLI;
use crate::settings::PADDLE_SPEED;

verus! {

/// The input read for one tick: the axis value for each paddle, in
/// milli-axis-units, or `None` where no input arrived this tick.
#[derive(Clone, Copy, Debug)]
pub struct InputSnapshot {
    pub left_paddle: Option<i64>,
    pub right_paddle: Option<i64>,
}

impl InputSnapshot {
    /// The axis that drives the paddle of the given side.
    pub open spec fn spec_axis_value(self, side: Side) -> Option<i64> {
        match side {
            Side::Left => self.left_paddle,
            Side::Right => self.right_paddle,
        }
    }

    pub fn axis_value(&self, side: Side) -> (axis: Option<i64>)
        ensures
            axis == self.spec_axis_value(side),
    {
        match side {
            Side::Left => self.left_paddle,
            Side::Right => self.right_paddle,
        }
    }
}

/// An axis value scaled to milli-units of paddle travel: `1.2` arena units
/// per full deflection, truncated toward zero to the milli-unit grid.
///
/// Deliberately not scaled by the tick's elapsed time: paddle speed is per
/// tick, so it varies with the frame rate, while ball speed does not. That
/// asymmetry is observable gameplay behaviour and is kept as it is.
pub open spec fn scaled_move(mv: int) -> int {
    if 0 <= mv {
        (mv * PADDLE_SPEED) / (MILLI as int)
    } else {
        -(((-mv) * PADDLE_SPEED) / (MILLI as int))
    }
}

/// `v` forced into `[lo, hi]`.
pub open spec fn clamped(v: int, lo: int, hi: int) -> int {
    if v < lo {
        lo
    } else if v > hi {
        hi
    } else {
        v
    }
}

/// The overflow bounds the controller needs before it may apply `axis`
/// to `p` (machine limits only).
pub open spec fn move_fits(p: Paddle, axis: Option<i64>) -> bool {
    match axis {
        None => true,
        Some(mv) => i64::MIN < mv * PADDLE_SPEED <= i64::MAX
            && i64::MIN <= p.y + scaled_move(mv as int) <= i64::MAX,
    }
}

/// What one tick of the controller does to a paddle: with no input, or a
/// zero axis value, the paddle stays put; otherwise its centre moves by the
/// scaled axis value and is clamped so the whole box stays in the arena.
pub open spec fn paddle_after(p: Paddle, axis: Option<i64>, arena_height: int) -> Paddle {
    match axis {
        None => p,
        Some(mv) => if mv == 0 {
            p
        } else {
            Paddle {
                y: clamped(
                    p.y + scaled_move(mv as int),
                    p.height / 2,
                    arena_height - p.height / 2,
                ) as i64,
                ..p
            }
        },
    }
}

/// Paddle controller. Stateless; one `run` per tick.
pub struct PaddleSystem;

impl PaddleSystem {
    /// Moves one paddle by an already-captured axis value: the centre
    /// travels `1.2 * mv_amount` (in axis units) and is clamped to
    /// `[height / 2, arena_height - height / 2]`, so the paddle's full
    /// extent stays inside the arena. Everything but `y` is untouched.
    pub fn update_position(&self, paddle: &mut Paddle, mv_amount: i64, arena_height: i64)
        requires
            old(paddle).wf(),
            old(paddle).height <= arena_height,
            i64::MIN < mv_amount * PADDLE_SPEED <= i64::MAX,
            i64::MIN <= old(paddle).y + scaled_move(mv_amount as int) <= i64::MAX,
        ensures
            final(paddle).y == clamped(
                old(paddle).y + scaled_move(mv_amount as int),
                old(paddle).height / 2,
                arena_height - old(paddle).height / 2,
            ),
            final(paddle).side == old(paddle).side,
            final(paddle).x == old(paddle).x,
            final(paddle).width == old(paddle).width,
            final(paddle).height == old(paddle).height,
    {
        let scaled: i64 = if 0 <= mv_amount {
            (mv_amount * PADDLE_SPEED) / MILLI
        } else {
            -(((-mv_amount) * PADDLE_SPEED) / MILLI)
        };
        let lo: i64 = paddle.height / 2;
        let hi: i64 = arena_height - lo;
        let moved: i64 = paddle.y + scaled;
        let updated_y: i64 = if moved < lo {
            lo
        } else if moved > hi {
            hi
        } else {
            moved
        };
        paddle.y = updated_y;
    }

    /// One controller pass: every paddle is moved by its own side's axis
    /// value, exactly as `paddle_after` says.
    pub fn run(&self, paddles: &mut Vec<Paddle>, input: &InputSnapshot, arena: &Arena)
        requires
            arena.valid(),
            forall|i: int| 0 <= i < old(paddles)@.len() ==> (#[trigger] old(paddles)@[i]).wf()
                && old(paddles)@[i].height <= arena.height
                && move_fits(old(paddles)@[i], input.spec_axis_value(old(paddles)@[i].side)),
        ensures
            final(paddles)@.len() == old(paddles)@.len(),
            forall|i: int| 0 <= i < old(paddles)@.len() ==> final(paddles)@[i] == paddle_after(
                #[trigger] old(paddles)@[i],
                input.spec_axis_value(old(paddles)@[i].side),
                arena.height as int,
            ),
    {
        let ghost orig = paddles@;
        let n = paddles.len();
        let mut i: usize = 0;
        while i < n
            invariant
                i <= n,
                n == orig.len(),
                paddles@.len() == orig.len(),
                arena.valid(),
                forall|j: int| 0 <= j < orig.len() ==> (#[trigger] orig[j]).wf()
                    && orig[j].height <= arena.height
                    && move_fits(orig[j], input.spec_axis_value(orig[j].side)),
                forall|j: int| i <= j < orig.len() ==> paddles@[j] == orig[j],
                forall|j: int| 0 <= j < i ==> paddles@[j] == paddle_after(
                    #[trigger] orig[j],
                    input.spec_axis_value(orig[j].side),
                    arena.height as int,
                ),
            decreases n - i,
        {
            let p = paddles[i];
            proof {
                assert(p == orig[i as int]);
                assert(orig[i as int].wf());
            }
            let axis_opt = input.axis_value(p.side);
            if let Some(mv_amount) = axis_opt {
                if mv_amount != 0 {
                    let mut updated = p;
                    self.update_position(&mut updated, mv_amount, arena.height);
                    paddles.set(i, updated);
                }
            }
            i = i + 1;
        }
    }
}

} // verus!
