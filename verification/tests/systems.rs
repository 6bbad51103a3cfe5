use pong::bounce::bounce_system;
use pong::camera::ScaleFactor;
use pong::game::{
    initialise_ball, initialise_camera, initialise_paddles, initialise_scoreboard,
    start_game_system, Ball, Paddle, ScoreBoard, ScoreText, Side, StartTimer, Text, Transform,
};
use pong::move_balls::move_balls_system;
use pong::paddle::{paddle_system, KeyboardState};
use pong::winner::winner_system;

fn ball_at(x: i64, y: i64, vx: i32, vy: i32) -> (Ball, Transform) {
    (
        Ball { velocity_x: vx, velocity_y: vy, radius: 2_000 },
        Transform { x, y, scale: ScaleFactor::identity() },
    )
}

fn no_keys() -> KeyboardState {
    KeyboardState { w: false, s: false, up: false, down: false }
}

#[test]
fn move_ball_is_exact_euler() {
    // 100 ms at (75, 50) units/s moves the ball by exactly (7500, 5000)
    // milli-units.
    let mut balls = vec![ball_at(1_000, 2_000, 75, 50)];
    move_balls_system(100, &mut balls);
    assert_eq!(balls[0].1.x, 8_500);
    assert_eq!(balls[0].1.y, 7_000);
    assert_eq!(balls[0].0.velocity_x, 75);
    assert_eq!(balls[0].0.velocity_y, 50);
}

#[test]
fn move_ball_zero_elapsed_time() {
    let mut balls = vec![ball_at(1_000, 2_000, -75, 50)];
    move_balls_system(0, &mut balls);
    assert_eq!(balls[0].1.x, 1_000);
    assert_eq!(balls[0].1.y, 2_000);
}

#[test]
fn wall_bounce_at_floor() {
    let mut balls = vec![ball_at(50_000, 1_500, 75, -50)];
    let paddles: Vec<(Paddle, Transform)> = Vec::new();
    let plays = bounce_system(&mut balls, &paddles);
    assert_eq!(balls[0].0.velocity_y, 50);
    assert_eq!(balls[0].0.velocity_x, 75);
    assert_eq!(plays, 1);
}

#[test]
fn wall_bounce_at_ceiling() {
    let mut balls = vec![ball_at(50_000, 98_500, 75, 50)];
    let paddles: Vec<(Paddle, Transform)> = Vec::new();
    let plays = bounce_system(&mut balls, &paddles);
    assert_eq!(balls[0].0.velocity_y, -50);
    assert_eq!(plays, 1);
}

#[test]
fn wall_bounce_not_repeated_while_in_band() {
    // First frame in the floor band while moving down: the velocity is
    // reflected. A second pass while the ball is still in the band but now
    // moving away must leave the velocity alone.
    let mut balls = vec![ball_at(50_000, 1_500, 75, -50)];
    let paddles: Vec<(Paddle, Transform)> = Vec::new();
    let plays_first = bounce_system(&mut balls, &paddles);
    assert_eq!(plays_first, 1);
    assert_eq!(balls[0].0.velocity_y, 50);
    let plays_second = bounce_system(&mut balls, &paddles);
    assert_eq!(plays_second, 0);
    assert_eq!(balls[0].0.velocity_y, 50);
}

#[test]
fn paddle_bounce_end_to_end() {
    // Ball at (1, 50) moving (-75, 50); the left paddle spans x in [0, 4]
    // and y in [42, 58]; grown by the radius 2 the box is x in [-2, 6],
    // y in [40, 60]; the centre (1, 50) lies inside, so the x-velocity
    // flips to +75.
    let mut balls = vec![ball_at(1_000, 50_000, -75, 50)];
    let paddles = vec![(
        Paddle { side: Side::Left, width: 4_000, height: 16_000 },
        Transform { x: 2_000, y: 50_000, scale: ScaleFactor::identity() },
    )];
    let plays = bounce_system(&mut balls, &paddles);
    assert_eq!(balls[0].0.velocity_x, 75);
    assert_eq!(balls[0].0.velocity_y, 50);
    assert_eq!(plays, 1);
}

#[test]
fn paddle_bounce_ignores_ball_moving_away() {
    let mut balls = vec![ball_at(1_000, 50_000, 75, 50)];
    let paddles = vec![(
        Paddle { side: Side::Left, width: 4_000, height: 16_000 },
        Transform { x: 2_000, y: 50_000, scale: ScaleFactor::identity() },
    )];
    let plays = bounce_system(&mut balls, &paddles);
    assert_eq!(balls[0].0.velocity_x, 75);
    assert_eq!(plays, 0);
}

#[test]
fn paddle_bounce_box_edges_inclusive() {
    // The ball's centre exactly on the expanded box's right edge still
    // counts as contact.
    let mut balls = vec![ball_at(6_000, 60_000, -75, 50)];
    let paddles = vec![(
        Paddle { side: Side::Left, width: 4_000, height: 16_000 },
        Transform { x: 2_000, y: 50_000, scale: ScaleFactor::identity() },
    )];
    let plays = bounce_system(&mut balls, &paddles);
    assert_eq!(balls[0].0.velocity_x, 75);
    assert_eq!(plays, 1);
}

#[test]
fn paddle_box_symmetric_for_odd_extents() {
    // A paddle one milli-unit wide with a radius-zero ball: the grown box
    // covers centre offsets of at most half a milli-unit on either side,
    // so a ball one milli-unit off centre is outside on both sides alike.
    let paddles = vec![(
        Paddle { side: Side::Left, width: 1, height: 16_000 },
        Transform { x: 2_000, y: 50_000, scale: ScaleFactor::identity() },
    )];
    let mut balls = vec![(
        Ball { velocity_x: -75, velocity_y: 0, radius: 0 },
        Transform { x: 2_001, y: 50_000, scale: ScaleFactor::identity() },
    )];
    let plays_right_of_centre = bounce_system(&mut balls, &paddles);
    assert_eq!(balls[0].0.velocity_x, -75);
    assert_eq!(plays_right_of_centre, 0);

    balls[0].1.x = 1_999;
    let plays_left_of_centre = bounce_system(&mut balls, &paddles);
    assert_eq!(balls[0].0.velocity_x, -75);
    assert_eq!(plays_left_of_centre, 0);

    balls[0].1.x = 2_000;
    let plays_on_centre = bounce_system(&mut balls, &paddles);
    assert_eq!(balls[0].0.velocity_x, 75);
    assert_eq!(plays_on_centre, 1);
}

#[test]
fn paddle_moves_up_and_clamps() {
    // Holding the left paddle's up key for one second adds 120 units,
    // which clamps to 92 units (92000 milli-units).
    let mut paddles = vec![(
        Paddle::new(Side::Left),
        Transform { x: 2_000, y: 50_000, scale: ScaleFactor::identity() },
    )];
    let keys = KeyboardState { w: true, s: false, up: false, down: false };
    paddle_system(1_000, &keys, &mut paddles);
    assert_eq!(paddles[0].1.y, 92_000);
}

#[test]
fn paddle_moves_up_exactly() {
    // 100 ms at 120 units/s is exactly 12 units.
    let mut paddles = vec![(
        Paddle::new(Side::Left),
        Transform { x: 2_000, y: 50_000, scale: ScaleFactor::identity() },
    )];
    let keys = KeyboardState { w: true, s: false, up: false, down: false };
    paddle_system(100, &keys, &mut paddles);
    assert_eq!(paddles[0].1.y, 62_000);
}

#[test]
fn paddle_moves_down_and_clamps() {
    let mut paddles = vec![(
        Paddle::new(Side::Right),
        Transform { x: 98_000, y: 10_000, scale: ScaleFactor::identity() },
    )];
    let keys = KeyboardState { w: false, s: false, up: false, down: true };
    paddle_system(1_000, &keys, &mut paddles);
    assert_eq!(paddles[0].1.y, 8_000);
}

#[test]
fn paddle_both_keys_cancel() {
    let mut paddles = vec![(
        Paddle::new(Side::Left),
        Transform { x: 2_000, y: 50_000, scale: ScaleFactor::identity() },
    )];
    let keys = KeyboardState { w: true, s: true, up: false, down: false };
    paddle_system(1_000, &keys, &mut paddles);
    assert_eq!(paddles[0].1.y, 50_000);
}

#[test]
fn paddle_ignores_other_side_keys() {
    let mut paddles = vec![(
        Paddle::new(Side::Right),
        Transform { x: 98_000, y: 50_000, scale: ScaleFactor::identity() },
    )];
    let keys = KeyboardState { w: true, s: false, up: false, down: false };
    paddle_system(1_000, &keys, &mut paddles);
    assert_eq!(paddles[0].1.y, 50_000);
}

#[test]
fn score_resets_ball_and_flips_velocity() {
    let mut scoreboard = initialise_scoreboard();
    let score_text = ScoreText { p1_score: 10, p2_score: 11 };
    let mut texts = vec![(10, Text { value: 0 }), (11, Text { value: 0 })];
    let mut balls = vec![ball_at(1_000, 30_000, -75, 50)];
    let plays = winner_system(&mut scoreboard, &score_text, &mut texts, &mut balls);
    assert_eq!(scoreboard.score_right, 1);
    assert_eq!(scoreboard.score_left, 0);
    assert_eq!(balls[0].1.x, 50_000);
    assert_eq!(balls[0].1.y, 50_000);
    assert_eq!(balls[0].0.velocity_x, 75);
    assert_eq!(balls[0].0.velocity_y, 50);
    assert_eq!(texts[1].1.value, 1);
    assert_eq!(texts[0].1.value, 0);
    assert_eq!(plays, 1);
}

#[test]
fn score_on_right_side_goes_to_left_player() {
    let mut scoreboard = ScoreBoard { score_left: 5, score_right: 2 };
    let score_text = ScoreText { p1_score: 10, p2_score: 11 };
    let mut texts = vec![(10, Text { value: 5 }), (11, Text { value: 2 })];
    let mut balls = vec![ball_at(98_500, 30_000, 75, -50)];
    let plays = winner_system(&mut scoreboard, &score_text, &mut texts, &mut balls);
    assert_eq!(scoreboard.score_left, 6);
    assert_eq!(scoreboard.score_right, 2);
    assert_eq!(balls[0].0.velocity_x, -75);
    assert_eq!(texts[0].1.value, 6);
    assert_eq!(plays, 1);
}

#[test]
fn score_never_exceeds_cap() {
    let mut scoreboard = ScoreBoard { score_left: 999, score_right: 999 };
    let score_text = ScoreText { p1_score: 10, p2_score: 11 };
    let mut texts = vec![(10, Text { value: 999 }), (11, Text { value: 999 })];
    for _ in 0..3 {
        let mut balls = vec![ball_at(1_000, 30_000, -75, 50)];
        winner_system(&mut scoreboard, &score_text, &mut texts, &mut balls);
    }
    assert_eq!(scoreboard.score_right, 999);
    assert_eq!(texts[1].1.value, 999);
}

#[test]
fn score_display_update_is_best_effort() {
    // No text entity matches: the counter still updates, the read-outs do
    // not.
    let mut scoreboard = initialise_scoreboard();
    let score_text = ScoreText { p1_score: 10, p2_score: 11 };
    let mut texts = vec![(99, Text { value: 7 })];
    let mut balls = vec![ball_at(1_000, 30_000, -75, 50)];
    winner_system(&mut scoreboard, &score_text, &mut texts, &mut balls);
    assert_eq!(scoreboard.score_right, 1);
    assert_eq!(texts[0].1.value, 7);
}

#[test]
fn no_score_in_mid_arena() {
    let mut scoreboard = ScoreBoard { score_left: 3, score_right: 4 };
    let score_text = ScoreText { p1_score: 10, p2_score: 11 };
    let mut texts = vec![(10, Text { value: 3 }), (11, Text { value: 4 })];
    let mut balls = vec![ball_at(50_000, 30_000, -75, 50)];
    let plays = winner_system(&mut scoreboard, &score_text, &mut texts, &mut balls);
    assert_eq!(scoreboard.score_left, 3);
    assert_eq!(scoreboard.score_right, 4);
    assert_eq!(balls[0].1.x, 50_000);
    assert_eq!(balls[0].1.y, 30_000);
    assert_eq!(balls[0].0.velocity_x, -75);
    assert_eq!(plays, 0);
}

#[test]
fn start_timer_spawns_ball_once() {
    let mut timer = StartTimer::new(1_000);
    assert!(start_game_system(&mut timer, 500).is_none());
    let spawned = start_game_system(&mut timer, 500);
    let (ball, transform) = spawned.expect("timer crossed its duration");
    assert_eq!(ball.velocity_x, 75);
    assert_eq!(ball.velocity_y, 50);
    assert_eq!(ball.radius, 2_000);
    assert_eq!(transform.x, 50_000);
    assert_eq!(transform.y, 50_000);
    assert!(start_game_system(&mut timer, 500).is_none());
}

#[test]
fn initial_scene_values() {
    let ((left, left_t), (right, right_t)) = initialise_paddles();
    assert_eq!(left.side, Side::Left);
    assert_eq!(left.width, 4_000);
    assert_eq!(left.height, 16_000);
    assert_eq!(left_t.x, 2_000);
    assert_eq!(left_t.y, 50_000);
    assert_eq!(right.side, Side::Right);
    assert_eq!(right_t.x, 98_000);
    assert_eq!(right_t.y, 50_000);

    let (ball, ball_t) = initialise_ball();
    assert_eq!(ball.velocity_x, 75);
    assert_eq!(ball.velocity_y, 50);
    assert_eq!(ball.radius, 2_000);
    assert_eq!(ball_t.x, 50_000);
    assert_eq!(ball_t.y, 50_000);

    let sb = initialise_scoreboard();
    assert_eq!(sb.score_left, 0);
    assert_eq!(sb.score_right, 0);

    let (screen, cam_t) = initialise_camera();
    assert_eq!(screen.scale_type, pong::camera::ScaleType::Stretch);
    assert_eq!(screen.width, 100);
    assert_eq!(screen.height, 100);
    assert_eq!(cam_t.x, 50_000);
    assert_eq!(cam_t.y, 50_000);
}
