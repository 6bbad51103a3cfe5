//! Paddle control: each frame, the held keys give each paddle a direction
//! in {-1, 0, +1}; the paddle moves at a fixed speed for the elapsed time
//! and is then clamped to the arena's vertical playable range.

use crate::game::{Paddle, Side, Transform, ARENA_HEIGHT, PADDLE_HEIGHT, PADDLE_MAX_Y, PADDLE_MIN_Y, PADDLE_SPEED};
use vstd::prelude::*;

verus! {

/// Which of the four control keys are held this frame: `w`/`s` steer the
/// left paddle up/down, `up`/`down` the right one.
#[derive(Clone, Copy, PartialEq, Eq, Structural, Debug)]
pub struct KeyboardState {
    pub w: bool,
    pub s: bool,
    pub up: bool,
    pub down: bool,
}

/// The net direction a paddle takes from the held keys: the sum of +1 for
/// its up key and -1 for its down key, so both held cancel out.
pub open spec fn paddle_direction(side: Side, keys: KeyboardState) -> int {
    match side {
        Side::Left => (if keys.w {
            1int
        } else {
            0int
        }) + (if keys.s {
            -1int
        } else {
            0int
        }),
        Side::Right => (if keys.up {
            1int
        } else {
            0int
        }) + (if keys.down {
            -1int
        } else {
            0int
        }),
    }
}

/// The paddle's new y: its old y moved by `direction * speed * elapsed
/// time`, then capped at half a paddle below the ceiling and finally
/// raised to half a paddle above the floor.
pub open spec fn moved_paddle_y(y: int, side: Side, keys: KeyboardState, dt_ms: int) -> int {
    let target = y + paddle_direction(side, keys) * PADDLE_SPEED * dt_ms;
    let high = ARENA_HEIGHT - PADDLE_HEIGHT / 2;
    let low = PADDLE_HEIGHT / 2;
    let capped = if target < high {
        target
    } else {
        high
    };
    if capped > low {
        capped
    } else {
        low
    }
}

/// Wherever a paddle starts and whatever is held, one steered frame
/// leaves its centre within the playable band: at least half a paddle
/// above the floor and half a paddle below the ceiling.
pub proof fn lemma_paddle_stays_in_band(y: int, side: Side, keys: KeyboardState, dt_ms: int)
    ensures
        PADDLE_MIN_Y <= moved_paddle_y(y, side, keys, dt_ms) <= PADDLE_MAX_Y,
{
}

/// `post` is `pre` steered for one frame: same paddle, same x and scale,
/// and the clamped y above.
pub open spec fn paddle_steered(
    pre: (Paddle, Transform),
    post: (Paddle, Transform),
    keys: KeyboardState,
    dt_ms: int,
) -> bool {
    post.0 == pre.0 && post.1.x == pre.1.x && post.1.scale == pre.1.scale && post.1.y
        == moved_paddle_y(pre.1.y as int, pre.0.side, keys, dt_ms)
}

/// Steer every paddle by the held keys for the elapsed time.
pub fn paddle_system(dt_ms: u32, keys: &KeyboardState, paddles: &mut Vec<(Paddle, Transform)>)
    ensures
        final(paddles)@.len() == old(paddles)@.len(),
        forall|i: int|
            0 <= i < old(paddles)@.len() ==> paddle_steered(
                #[trigger] old(paddles)@[i],
                final(paddles)@[i],
                *keys,
                dt_ms as int,
            ),
{
    let mut i: usize = 0;
    while i < paddles.len()
        invariant
            i <= paddles@.len(),
            paddles@.len() == old(paddles)@.len(),
            forall|j: int|
                0 <= j < i ==> paddle_steered(
                    #[trigger] old(paddles)@[j],
                    paddles@[j],
                    *keys,
                    dt_ms as int,
                ),
            forall|j: int| i <= j < paddles@.len() ==> paddles@[j] == #[trigger] old(paddles)@[j],
        decreases paddles@.len() - i,
    {
        let (p, t) = paddles[i];
        proof {
            assert(paddles@[i as int] == old(paddles)@[i as int]);
        }
        let dir: i64 = match p.side {
            Side::Left => {
                let mut d: i64 = 0;
                if keys.w {
                    d += 1;
                }
                if keys.s {
                    d -= 1;
                }
                d
            },
            Side::Right => {
                let mut d: i64 = 0;
                if keys.up {
                    d += 1;
                }
                if keys.down {
                    d -= 1;
                }
                d
            },
        };
        assert(dir as int == paddle_direction(p.side, *keys));
        let target: i128 = t.y as i128 + (dir as i128) * (PADDLE_SPEED as i128) * (dt_ms as i128);
        let high: i128 = (ARENA_HEIGHT - PADDLE_HEIGHT / 2) as i128;
        let low: i128 = (PADDLE_HEIGHT / 2) as i128;
        let capped: i128 = if target < high {
            target
        } else {
            high
        };
        let clamped: i128 = if capped > low {
            capped
        } else {
            low
        };
        assert(low <= clamped <= high);
        let newy: i64 = clamped as i64;
        paddles[i] = (p, Transform { x: t.x, y: newy, scale: t.scale });
        i += 1;
    }
}

} // verus!
