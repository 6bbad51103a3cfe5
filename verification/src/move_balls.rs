//! Per-frame ball integration: explicit Euler, exact over the integers.

use crate::game::{Ball, Transform};
use vstd::prelude::*;

verus! {

/// Both integrated coordinates of `b` stay representable for this frame.
pub open spec fn ball_move_fits(b: (Ball, Transform), dt_ms: int) -> bool {
    i64::MIN <= b.1.x + b.0.velocity_x * dt_ms <= i64::MAX
        && i64::MIN <= b.1.y + b.0.velocity_y * dt_ms <= i64::MAX
}

/// `post` is `pre` moved for `dt_ms` milliseconds: on each axis exactly
/// `position + velocity * elapsed_time`, and nothing else changed.
pub open spec fn ball_moved(pre: (Ball, Transform), post: (Ball, Transform), dt_ms: int) -> bool {
    post.0 == pre.0 && post.1.x == pre.1.x + pre.0.velocity_x * dt_ms && post.1.y == pre.1.y
        + pre.0.velocity_y * dt_ms && post.1.scale == pre.1.scale
}

/// A velocity component times a frame time stays far inside `i128`.
proof fn lemma_vel_dt_bounded(v: int, d: int)
    requires
        i32::MIN <= v <= i32::MAX,
        0 <= d <= u32::MAX,
    ensures
        -0x8000_0000_0000_0000 <= v * d <= 0x8000_0000_0000_0000,
{
    assert(-0x8000_0000_0000_0000 <= v * d <= 0x8000_0000_0000_0000) by (nonlinear_arith)
        requires
            -0x8000_0000 <= v <= 0x7fff_ffff,
            0 <= d <= 0xffff_ffff,
    ;
}

/// Move every ball by its velocity for the elapsed time.
pub fn move_balls_system(dt_ms: u32, balls: &mut Vec<(Ball, Transform)>)
    requires
        forall|i: int|
            0 <= i < old(balls)@.len() ==> ball_move_fits(#[trigger] old(balls)@[i], dt_ms as int),
    ensures
        final(balls)@.len() == old(balls)@.len(),
        forall|i: int|
            0 <= i < old(balls)@.len() ==> ball_moved(
                #[trigger] old(balls)@[i],
                final(balls)@[i],
                dt_ms as int,
            ),
{
    let mut i: usize = 0;
    while i < balls.len()
        invariant
            i <= balls@.len(),
            balls@.len() == old(balls)@.len(),
            forall|j: int|
                0 <= j < old(balls)@.len() ==> ball_move_fits(
                    #[trigger] old(balls)@[j],
                    dt_ms as int,
                ),
            forall|j: int|
                0 <= j < i ==> ball_moved(#[trigger] old(balls)@[j], balls@[j], dt_ms as int),
            forall|j: int| i <= j < balls@.len() ==> balls@[j] == #[trigger] old(balls)@[j],
        decreases balls@.len() - i,
    {
        let (ball, t) = balls[i];
        proof {
            assert(balls@[i as int] == old(balls)@[i as int]);
            assert(ball_move_fits(old(balls)@[i as int], dt_ms as int));
            lemma_vel_dt_bounded(ball.velocity_x as int, dt_ms as int);
            lemma_vel_dt_bounded(ball.velocity_y as int, dt_ms as int);
        }
        let x128: i128 = t.x as i128 + (ball.velocity_x as i128) * (dt_ms as i128);
        let y128: i128 = t.y as i128 + (ball.velocity_y as i128) * (dt_ms as i128);
        assert(i64::MIN <= x128 <= i64::MAX && i64::MIN <= y128 <= i64::MAX);
        balls[i] = (ball, Transform { x: x128 as i64, y: y128 as i64, scale: t.scale });
        i += 1;
    }
}

} // verus!
