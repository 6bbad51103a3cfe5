//! Score resolution: a ball leaving the arena on the left scores for the
//! right player and vice versa. The scoring side's counter goes up (capped),
//! its read-out is updated if its text entity can be found, and the ball is
//! sent back to the centre with its horizontal velocity reversed. Each
//! score event asks for one score sound; the system returns how many.

use crate::game::{
    Ball, ScoreBoard, ScoreText, Side, Text, Transform, ARENA_CENTER_X, ARENA_CENTER_Y, ARENA_WIDTH,
    SCORE_CAP,
};
use vstd::prelude::*;

verus! {

/// Which side scores off a ball whose centre sits at `x`: the right
/// player when the ball reaches the left edge band, the left player when
/// it reaches the right edge band, nobody in between.
pub open spec fn score_side(x: int, r: int) -> Option<Side> {
    if x <= r {
        Some(Side::Right)
    } else if x >= ARENA_WIDTH - r {
        Some(Side::Left)
    } else {
        None
    }
}

/// A counter after one score: one more, but never past the cap.
pub open spec fn bumped(s: int) -> int {
    if s + 1 < SCORE_CAP {
        s + 1
    } else {
        SCORE_CAP as int
    }
}

/// Text components are keyed by entity, so the ids are distinct.
pub open spec fn texts_wf(texts: Seq<(u64, Text)>) -> bool {
    forall|i: int, j: int| 0 <= i < j < texts.len() ==> texts[i].0 != texts[j].0
}

/// The text table with the display of entity `id` set to `value`; if no
/// entry carries that id, the table is unchanged (the score itself is
/// still authoritative, only the read-out is missed).
pub open spec fn texts_updated(texts: Seq<(u64, Text)>, id: u64, value: i32) -> Seq<(u64, Text)> {
    if exists|i: int| 0 <= i < texts.len() && texts[i].0 == id {
        let i = choose|i: int| 0 <= i < texts.len() && texts[i].0 == id;
        texts.update(i, (id, Text { value }))
    } else {
        texts
    }
}

/// The scoreboard and text table after the first `n` balls were resolved
/// in order.
pub open spec fn winner_state(
    sb0: ScoreBoard,
    texts0: Seq<(u64, Text)>,
    st: ScoreText,
    balls: Seq<(Ball, Transform)>,
    n: int,
) -> (ScoreBoard, Seq<(u64, Text)>)
    decreases n,
{
    if n <= 0 {
        (sb0, texts0)
    } else {
        let prev = winner_state(sb0, texts0, st, balls, n - 1);
        let b = balls[n - 1];
        match score_side(b.1.x as int, b.0.radius as int) {
            Some(Side::Right) => {
                let s = bumped(prev.0.score_right as int) as i32;
                (
                    ScoreBoard { score_left: prev.0.score_left, score_right: s },
                    texts_updated(prev.1, st.p2_score, s),
                )
            },
            Some(Side::Left) => {
                let s = bumped(prev.0.score_left as int) as i32;
                (
                    ScoreBoard { score_left: s, score_right: prev.0.score_right },
                    texts_updated(prev.1, st.p1_score, s),
                )
            },
            None => prev,
        }
    }
}

/// How many score sounds the first `n` balls ask for: one per score event.
pub open spec fn winner_plays(balls: Seq<(Ball, Transform)>, n: int) -> int
    decreases n,
{
    if n <= 0 {
        0
    } else {
        winner_plays(balls, n - 1) + if score_side(
            balls[n - 1].1.x as int,
            balls[n - 1].0.radius as int,
        ) is Some {
            1int
        } else {
            0int
        }
    }
}

/// However many score events one pass resolves, a well-formed scoreboard
/// stays well formed: neither counter ever exceeds the cap or goes
/// negative.
pub proof fn lemma_score_cap(
    sb0: ScoreBoard,
    texts0: Seq<(u64, Text)>,
    st: ScoreText,
    balls: Seq<(Ball, Transform)>,
    n: int,
)
    requires
        sb0.wf(),
    ensures
        winner_state(sb0, texts0, st, balls, n).0.wf(),
    decreases n,
{
    if n > 0 {
        lemma_score_cap(sb0, texts0, st, balls, n - 1);
    }
}

/// `post` is `pre` after its score event, if any: on a score the ball
/// keeps its radius and vertical velocity, its horizontal velocity's sign
/// is flipped, and it is reset to the arena's centre; otherwise nothing
/// changes.
pub open spec fn ball_score_resolved(pre: (Ball, Transform), post: (Ball, Transform)) -> bool {
    match score_side(pre.1.x as int, pre.0.radius as int) {
        Some(_) => post.0.radius == pre.0.radius && post.0.velocity_y == pre.0.velocity_y
            && post.0.velocity_x as int == -(pre.0.velocity_x as int) && post.1.x == ARENA_CENTER_X
            && post.1.y == ARENA_CENTER_Y && post.1.scale == pre.1.scale,
        None => post == pre,
    }
}

/// Set the display of the text entity `id` to `value`, best effort: a
/// missing entity leaves the table as it is.
#[verifier::loop_isolation(false)]
fn update_text(texts: &mut Vec<(u64, Text)>, id: u64, value: i32)
    requires
        texts_wf(old(texts)@),
    ensures
        final(texts)@ == texts_updated(old(texts)@, id, value),
        texts_wf(final(texts)@),
        final(texts)@.len() == old(texts)@.len(),
{
    let mut j: usize = 0;
    while j < texts.len()
        invariant
            j <= texts@.len(),
            texts@ == old(texts)@,
            forall|k: int| 0 <= k < j ==> (#[trigger] texts@[k]).0 != id,
        decreases texts@.len() - j,
    {
        let (tid, _) = texts[j];
        if tid == id {
            texts[j] = (id, Text { value });
            proof {
                let w = choose|i: int| 0 <= i < old(texts)@.len() && old(texts)@[i].0 == id;
                assert(old(texts)@[j as int].0 == id);
                assert(w == j as int);
                assert(texts@ =~= texts_updated(old(texts)@, id, value));
                assert(forall|k: int|
                    0 <= k < texts@.len() ==> (#[trigger] texts@[k]).0 == old(texts)@[k].0);
            }
            return ;
        }
        j += 1;
    }
    proof {
        assert(!(exists|i: int| 0 <= i < texts@.len() && texts@[i].0 == id));
    }
}

/// Resolve score events for every ball, updating the counters, the
/// read-outs and the balls; the result is how many score sounds to play.
#[verifier::loop_isolation(false)]
pub fn winner_system(
    scoreboard: &mut ScoreBoard,
    score_text: &ScoreText,
    texts: &mut Vec<(u64, Text)>,
    balls: &mut Vec<(Ball, Transform)>,
) -> (plays: usize)
    requires
        old(scoreboard).wf(),
        texts_wf(old(texts)@),
        forall|i: int| 0 <= i < old(balls)@.len() ==> (#[trigger] old(balls)@[i]).0.wf(),
    ensures
        final(scoreboard).wf(),
        (*final(scoreboard), final(texts)@) == winner_state(
            *old(scoreboard),
            old(texts)@,
            *score_text,
            old(balls)@,
            old(balls)@.len() as int,
        ),
        texts_wf(final(texts)@),
        final(texts)@.len() == old(texts)@.len(),
        final(balls)@.len() == old(balls)@.len(),
        forall|i: int|
            0 <= i < old(balls)@.len() ==> ball_score_resolved(
                #[trigger] old(balls)@[i],
                final(balls)@[i],
            ),
        plays as int == winner_plays(old(balls)@, old(balls)@.len() as int),
{
    let mut plays: usize = 0;
    let mut bi: usize = 0;
    while bi < balls.len()
        invariant
            bi <= balls@.len(),
            balls@.len() == old(balls)@.len(),
            scoreboard.wf(),
            texts_wf(texts@),
            texts@.len() == old(texts)@.len(),
            (*scoreboard, texts@) == winner_state(
                *old(scoreboard),
                old(texts)@,
                *score_text,
                old(balls)@,
                bi as int,
            ),
            forall|j: int|
                0 <= j < bi ==> ball_score_resolved(#[trigger] old(balls)@[j], balls@[j]),
            forall|j: int| bi <= j < balls@.len() ==> balls@[j] == #[trigger] old(balls)@[j],
            plays as int == winner_plays(old(balls)@, bi as int),
            plays <= bi,
        decreases balls@.len() - bi,
    {
        let (mut ball, mut t) = balls[bi];
        proof {
            assert(balls@[bi as int] == old(balls)@[bi as int]);
            assert(old(balls)@[bi as int].0.wf());
        }
        let did_hit = if t.x <= ball.radius {
            // The right player scored on the left side.
            let s = if scoreboard.score_right + 1 < SCORE_CAP {
                scoreboard.score_right + 1
            } else {
                SCORE_CAP
            };
            scoreboard.score_right = s;
            update_text(texts, score_text.p2_score, s);
            true
        } else if t.x >= ARENA_WIDTH - ball.radius {
            // The left player scored on the right side.
            let s = if scoreboard.score_left + 1 < SCORE_CAP {
                scoreboard.score_left + 1
            } else {
                SCORE_CAP
            };
            scoreboard.score_left = s;
            update_text(texts, score_text.p1_score, s);
            true
        } else {
            false
        };
        if did_hit {
            ball.velocity_x = -ball.velocity_x;
            t.x = ARENA_CENTER_X;
            t.y = ARENA_CENTER_Y;
            plays += 1;
        }
        balls[bi] = (ball, t);
        bi += 1;
    }
    plays
}

} // verus!
