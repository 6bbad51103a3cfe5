//! Bounce resolution: reflect a ball's vertical velocity off the arena's
//! floor and ceiling, and its horizontal velocity off any paddle whose
//! radius-expanded box contains the ball's centre while the ball is
//! moving towards that paddle's side. Each reflection asks for one bounce
//! sound; the system returns how many to play.

use crate::game::{Ball, Paddle, Side, Transform, ARENA_HEIGHT};
use vstd::prelude::*;

verus! {

/// The wall guard: the ball touches the floor band while moving down, or
/// the ceiling band while moving up. The velocity sign check keeps a ball
/// that stays in a band over several frames from being reflected twice.
pub open spec fn wall_bounce_applies(y: int, vy: int, r: int) -> bool {
    (y <= r && vy < 0) || (y >= ARENA_HEIGHT - r && vy > 0)
}

/// The vertical velocity after the wall pass.
pub open spec fn wall_bounced_vy(y: int, vy: int, r: int) -> int {
    if wall_bounce_applies(y, vy, r) {
        -vy
    } else {
        vy
    }
}

/// The point (x, y) lies in the paddle's box grown outward by the ball's
/// radius on all four sides; every edge is inclusive. The box is centred
/// on the paddle, so it is stated over doubled offsets: halving an odd
/// extent would round and skew the box one milli-unit to a side.
pub open spec fn expanded_paddle_contains(p: Paddle, pt: Transform, r: int, x: int, y: int) -> bool {
    -(p.width + 2 * r) <= 2 * (x - pt.x) <= p.width + 2 * r && -(p.height + 2 * r) <= 2 * (y
        - pt.y) <= p.height + 2 * r
}

/// This paddle reflects a ball at (x, y) moving with horizontal velocity
/// `vx`: the expanded box contains the centre and the ball moves towards
/// the paddle's own side.
pub open spec fn paddle_deflects(p: Paddle, pt: Transform, r: int, x: int, y: int, vx: int) -> bool {
    expanded_paddle_contains(p, pt, r, x, y) && ((p.side == Side::Left && vx < 0) || (p.side
        == Side::Right && vx > 0))
}

/// The horizontal velocity after the first `n` paddles were tried in
/// order, each against the velocity left by the ones before it.
pub open spec fn paddle_bounced_vx(
    x: int,
    y: int,
    r: int,
    vx: int,
    paddles: Seq<(Paddle, Transform)>,
    n: int,
) -> int
    decreases n,
{
    if n <= 0 {
        vx
    } else {
        let prev = paddle_bounced_vx(x, y, r, vx, paddles, n - 1);
        if paddle_deflects(paddles[n - 1].0, paddles[n - 1].1, r, x, y, prev) {
            -prev
        } else {
            prev
        }
    }
}

/// How many bounce sounds the first `n` paddles ask for.
pub open spec fn paddle_bounce_plays(
    x: int,
    y: int,
    r: int,
    vx: int,
    paddles: Seq<(Paddle, Transform)>,
    n: int,
) -> int
    decreases n,
{
    if n <= 0 {
        0
    } else {
        let prev = paddle_bounced_vx(x, y, r, vx, paddles, n - 1);
        paddle_bounce_plays(x, y, r, vx, paddles, n - 1) + if paddle_deflects(
            paddles[n - 1].0,
            paddles[n - 1].1,
            r,
            x,
            y,
            prev,
        ) {
            1int
        } else {
            0int
        }
    }
}

/// How many bounce sounds one ball asks for: one for a wall reflection
/// plus one per paddle reflection.
pub open spec fn ball_bounce_plays(b: (Ball, Transform), paddles: Seq<(Paddle, Transform)>) -> int {
    (if wall_bounce_applies(b.1.y as int, b.0.velocity_y as int, b.0.radius as int) {
        1int
    } else {
        0int
    }) + paddle_bounce_plays(
        b.1.x as int,
        b.1.y as int,
        b.0.radius as int,
        b.0.velocity_x as int,
        paddles,
        paddles.len() as int,
    )
}

/// How many bounce sounds the first `n` balls ask for together.
pub open spec fn total_bounce_plays(
    balls: Seq<(Ball, Transform)>,
    paddles: Seq<(Paddle, Transform)>,
    n: int,
) -> int
    decreases n,
{
    if n <= 0 {
        0
    } else {
        total_bounce_plays(balls, paddles, n - 1) + ball_bounce_plays(balls[n - 1], paddles)
    }
}

/// `post` is `pre` with this frame's reflections applied: position and
/// radius untouched, the vertical velocity put through the wall pass and
/// the horizontal velocity through every paddle in order.
pub open spec fn ball_bounced(
    pre: (Ball, Transform),
    post: (Ball, Transform),
    paddles: Seq<(Paddle, Transform)>,
) -> bool {
    post.1 == pre.1 && post.0.radius == pre.0.radius && post.0.velocity_y as int == wall_bounced_vy(
        pre.1.y as int,
        pre.0.velocity_y as int,
        pre.0.radius as int,
    ) && post.0.velocity_x as int == paddle_bounced_vx(
        pre.1.x as int,
        pre.1.y as int,
        pre.0.radius as int,
        pre.0.velocity_x as int,
        paddles,
        paddles.len() as int,
    )
}

/// A reflection at the floor is not repeated while the ball stays in
/// contact: once the wall pass has negated a downward velocity at the
/// floor band, the guard's sign check keeps the very next wall pass from
/// negating it back, wherever the ball now is short of the ceiling band.
pub proof fn lemma_wall_bounce_no_double_low(y1: int, y2: int, vy: int, r: int)
    requires
        y1 <= r,
        vy < 0,
        y2 < ARENA_HEIGHT - r,
    ensures
        wall_bounced_vy(y1, vy, r) == -vy,
        wall_bounced_vy(y2, -vy, r) == -vy,
{
}

/// The mirror image at the ceiling: after the wall pass negates an upward
/// velocity in the ceiling band, the next wall pass leaves the velocity
/// alone, wherever the ball now is short of the floor band.
pub proof fn lemma_wall_bounce_no_double_high(y1: int, y2: int, vy: int, r: int)
    requires
        y1 >= ARENA_HEIGHT - r,
        vy > 0,
        y2 > r,
    ensures
        wall_bounced_vy(y1, vy, r) == -vy,
        wall_bounced_vy(y2, -vy, r) == -vy,
{
}

/// The same for a paddle: once a paddle has reflected the ball, the
/// ball moves away from that paddle's side, and a paddle pass over any
/// single paddle leaves the reflected velocity alone even while the
/// ball's centre is still inside the expanded box.
pub proof fn lemma_paddle_bounce_no_double(p: Paddle, pt: Transform, r: int, x: int, y: int, vx: int)
    requires
        paddle_deflects(p, pt, r, x, y, vx),
    ensures
        !paddle_deflects(p, pt, r, x, y, -vx),
{
}

/// The sound count so far, capped at what a `usize` can hold.
pub open spec fn capped_at_usize(n: int) -> int {
    if n <= usize::MAX {
        n
    } else {
        usize::MAX as int
    }
}

/// Bump a saturating sound counter.
fn sat_inc(c: usize) -> (r: usize)
    ensures
        r as int == capped_at_usize(c as int + 1),
{
    if c < usize::MAX {
        c + 1
    } else {
        c
    }
}

/// Paddle sound counts are never negative.
proof fn lemma_paddle_bounce_plays_nonneg(
    x: int,
    y: int,
    r: int,
    vx: int,
    paddles: Seq<(Paddle, Transform)>,
    n: int,
)
    ensures
        paddle_bounce_plays(x, y, r, vx, paddles, n) >= 0,
    decreases n,
{
    if n > 0 {
        lemma_paddle_bounce_plays_nonneg(x, y, r, vx, paddles, n - 1);
    }
}

/// Reflect every ball off walls and paddles; the result is how many
/// bounce sounds to play (saturating, unreachable in practice).
#[verifier::loop_isolation(false)]
pub fn bounce_system(balls: &mut Vec<(Ball, Transform)>, paddles: &Vec<(Paddle, Transform)>) -> (plays:
    usize)
    requires
        forall|i: int| 0 <= i < old(balls)@.len() ==> (#[trigger] old(balls)@[i]).0.wf(),
    ensures
        final(balls)@.len() == old(balls)@.len(),
        forall|i: int|
            0 <= i < old(balls)@.len() ==> ball_bounced(
                #[trigger] old(balls)@[i],
                final(balls)@[i],
                paddles@,
            ),
        plays as int == capped_at_usize(
            total_bounce_plays(old(balls)@, paddles@, old(balls)@.len() as int),
        ),
{
    let mut plays: usize = 0;
    let mut bi: usize = 0;
    while bi < balls.len()
        invariant
            bi <= balls@.len(),
            balls@.len() == old(balls)@.len(),
            forall|j: int| 0 <= j < old(balls)@.len() ==> (#[trigger] old(balls)@[j]).0.wf(),
            forall|j: int|
                0 <= j < bi ==> ball_bounced(#[trigger] old(balls)@[j], balls@[j], paddles@),
            forall|j: int| bi <= j < balls@.len() ==> balls@[j] == #[trigger] old(balls)@[j],
            plays as int == capped_at_usize(total_bounce_plays(old(balls)@, paddles@, bi as int)),
        decreases balls@.len() - bi,
    {
        let (mut ball, t) = balls[bi];
        proof {
            assert(balls@[bi as int] == old(balls)@[bi as int]);
            assert(old(balls)@[bi as int].0.wf());
        }
        let ghost pre: (Ball, Transform) = (ball, t);
        let ghost plays_before: int = total_bounce_plays(old(balls)@, paddles@, bi as int);

        // Bounce at the top or the bottom of the arena.
        if (t.y <= ball.radius && ball.velocity_y < 0) || (t.y >= ARENA_HEIGHT - ball.radius
            && ball.velocity_y > 0) {
            ball.velocity_y = -ball.velocity_y;
            plays = sat_inc(plays);
        }
        let ghost wall_play: int = if wall_bounce_applies(
            pre.1.y as int,
            pre.0.velocity_y as int,
            pre.0.radius as int,
        ) {
            1int
        } else {
            0int
        };

        let mut pi: usize = 0;
        while pi < paddles.len()
            invariant
                pi <= paddles@.len(),
                pre.0.wf(),
                ball.radius == pre.0.radius,
                ball.velocity_y as int == wall_bounced_vy(
                    pre.1.y as int,
                    pre.0.velocity_y as int,
                    pre.0.radius as int,
                ),
                i32::MIN < ball.velocity_x,
                ball.velocity_x as int == paddle_bounced_vx(
                    pre.1.x as int,
                    pre.1.y as int,
                    pre.0.radius as int,
                    pre.0.velocity_x as int,
                    paddles@,
                    pi as int,
                ),
                plays as int == capped_at_usize(
                    plays_before + wall_play + paddle_bounce_plays(
                        pre.1.x as int,
                        pre.1.y as int,
                        pre.0.radius as int,
                        pre.0.velocity_x as int,
                        paddles@,
                        pi as int,
                    ),
                ),
            decreases paddles@.len() - pi,
        {
            proof {
                lemma_paddle_bounce_plays_nonneg(
                    pre.1.x as int,
                    pre.1.y as int,
                    pre.0.radius as int,
                    pre.0.velocity_x as int,
                    paddles@,
                    pi as int,
                );
            }
            let (p, pt) = paddles[pi];
            proof {
                assert(paddles@[pi as int] == (p, pt));
            }
            let ghost prev_vx: int = ball.velocity_x as int;
            let dx2: i128 = 2 * (t.x as i128 - pt.x as i128);
            let dy2: i128 = 2 * (t.y as i128 - pt.y as i128);
            let wx: i128 = p.width as i128 + 2 * ball.radius as i128;
            let wy: i128 = p.height as i128 + 2 * ball.radius as i128;
            let inside = -wx <= dx2 && dx2 <= wx && -wy <= dy2 && dy2 <= wy;
            proof {
                assert(inside == expanded_paddle_contains(
                    p,
                    pt,
                    pre.0.radius as int,
                    pre.1.x as int,
                    pre.1.y as int,
                ));
            }
            if inside {
                if (p.side == Side::Left && ball.velocity_x < 0) || (p.side == Side::Right
                    && ball.velocity_x > 0) {
                    ball.velocity_x = -ball.velocity_x;
                    plays = sat_inc(plays);
                }
            }
            proof {
                let r = pre.0.radius as int;
                let x0 = pre.1.x as int;
                let y0 = pre.1.y as int;
                let vx0 = pre.0.velocity_x as int;
                assert(paddle_bounced_vx(x0, y0, r, vx0, paddles@, pi + 1) == if paddle_deflects(
                    p,
                    pt,
                    r,
                    x0,
                    y0,
                    prev_vx,
                ) {
                    -prev_vx
                } else {
                    prev_vx
                });
                assert(ball.velocity_x as int == paddle_bounced_vx(
                    x0,
                    y0,
                    r,
                    vx0,
                    paddles@,
                    pi + 1,
                ));
            }
            pi += 1;
        }

        balls[bi] = (ball, t);
        bi += 1;
    }
    plays
}

} // verus!
