//! Component data for the game world, the arena constants, and the scene
//! constructors that decide the initial value of every entity.

use crate::camera::{ScaleFactor, ScaleType, VirtualScreen};
use vstd::prelude::*;

verus! {

/// Arena width in milli-units (100 arena units).
pub const ARENA_WIDTH: i64 = 100_000;

/// Arena height in milli-units (100 arena units).
pub const ARENA_HEIGHT: i64 = 100_000;

/// Paddle width in milli-units (4 arena units).
pub const PADDLE_WIDTH: i64 = 4_000;

/// Paddle height in milli-units (16 arena units).
pub const PADDLE_HEIGHT: i64 = 16_000;

/// Initial horizontal ball velocity, in arena units per second.
pub const BALL_VELOCITY_X: i32 = 75;

/// Initial vertical ball velocity, in arena units per second.
pub const BALL_VELOCITY_Y: i32 = 50;

/// Ball radius in milli-units (2 arena units).
pub const BALL_RADIUS: i64 = 2_000;

/// Vertical paddle speed, in arena units per second.
pub const PADDLE_SPEED: i64 = 120;

/// Neither score counter ever shows more than this.
pub const SCORE_CAP: i32 = 999;

/// Delay before the ball spawns, in milliseconds.
pub const START_DELAY_MS: u32 = 1_000;

/// Horizontal centre of the arena, in milli-units.
pub const ARENA_CENTER_X: i64 = 50_000;

/// Vertical centre of the arena, in milli-units.
pub const ARENA_CENTER_Y: i64 = 50_000;

/// Resting x of the left paddle's centre: half a paddle from the edge.
pub const LEFT_PADDLE_X: i64 = 2_000;

/// Resting x of the right paddle's centre: half a paddle from the edge.
pub const RIGHT_PADDLE_X: i64 = 98_000;

/// Lowest y a paddle centre may take: half a paddle above the floor.
pub const PADDLE_MIN_Y: i64 = 8_000;

/// Highest y a paddle centre may take: half a paddle below the ceiling.
pub const PADDLE_MAX_Y: i64 = 92_000;

/// The half of the arena a paddle defends.
#[derive(Clone, Copy, PartialEq, Eq, Structural, Debug)]
pub enum Side {
    Left,
    Right,
}

/// Spatial state of an entity: a 2D translation in milli-units and the
/// scale the renderer applies to it.
#[derive(Clone, Copy, PartialEq, Eq, Structural, Debug)]
pub struct Transform {
    pub x: i64,
    pub y: i64,
    pub scale: ScaleFactor,
}

impl Default for Transform {
    /// The origin, drawn at natural size.
    fn default() -> (t: Transform)
        ensures
            t == (Transform { x: 0, y: 0, scale: ScaleFactor::spec_identity() }),
    {
        Transform { x: 0, y: 0, scale: ScaleFactor::identity() }
    }
}

/// A paddle: which side it defends and its extent in milli-units.
#[derive(Clone, Copy, PartialEq, Eq, Structural, Debug)]
pub struct Paddle {
    pub side: Side,
    pub width: i64,
    pub height: i64,
}

impl Paddle {
    /// A paddle is well formed when its extent is not negative.
    pub open spec fn wf(self) -> bool {
        0 <= self.width && 0 <= self.height
    }

    pub fn new(side: Side) -> (p: Paddle)
        ensures
            p == (Paddle { side, width: PADDLE_WIDTH, height: PADDLE_HEIGHT }),
            p.wf(),
    {
        Paddle { side, width: PADDLE_WIDTH, height: PADDLE_HEIGHT }
    }
}

/// The ball: velocity in arena units per second and radius in milli-units.
#[derive(Clone, Copy, PartialEq, Eq, Structural, Debug)]
pub struct Ball {
    pub velocity_x: i32,
    pub velocity_y: i32,
    pub radius: i64,
}

impl Ball {
    /// A ball is well formed when each velocity component can be negated
    /// without overflow and the ball fits inside the arena.
    pub open spec fn wf(self) -> bool {
        i32::MIN < self.velocity_x && i32::MIN < self.velocity_y && 0 <= self.radius
            && 2 * self.radius <= ARENA_WIDTH && 2 * self.radius <= ARENA_HEIGHT
    }
}

/// The score counters, one per player.
#[derive(Clone, Copy, PartialEq, Eq, Structural, Debug)]
pub struct ScoreBoard {
    pub score_left: i32,
    pub score_right: i32,
}

impl ScoreBoard {
    /// Both counters stay between zero and the cap.
    pub open spec fn wf(self) -> bool {
        0 <= self.score_left <= SCORE_CAP && 0 <= self.score_right <= SCORE_CAP
    }
}

/// The entities of the two score read-outs.
#[derive(Clone, Copy, PartialEq, Eq, Structural, Debug)]
pub struct ScoreText {
    pub p1_score: u64,
    pub p2_score: u64,
}

/// A text display; the engine renders `value` in decimal on screen.
#[derive(Clone, Copy, PartialEq, Eq, Structural, Debug)]
pub struct Text {
    pub value: i32,
}

/// One-shot countdown that delays the ball's first appearance.
#[derive(Clone, Copy, PartialEq, Eq, Structural, Debug)]
pub struct StartTimer {
    pub elapsed_ms: u32,
    pub duration_ms: u32,
    pub finished: bool,
}

impl StartTimer {
    pub fn new(duration_ms: u32) -> (t: StartTimer)
        ensures
            t == (StartTimer { elapsed_ms: 0, duration_ms, finished: false }),
    {
        StartTimer { elapsed_ms: 0, duration_ms, finished: false }
    }

    /// Accumulate elapsed time (saturating) and report whether the timer
    /// crossed its duration on this very call.
    pub fn tick(&mut self, dt_ms: u32) -> (just_finished: bool)
        ensures
            final(self).duration_ms == old(self).duration_ms,
            final(self).elapsed_ms == if old(self).elapsed_ms + dt_ms <= u32::MAX {
                old(self).elapsed_ms + dt_ms
            } else {
                u32::MAX as int
            },
            final(self).finished == (old(self).finished
                || final(self).elapsed_ms >= old(self).duration_ms),
            just_finished == (!old(self).finished && final(self).finished),
    {
        let elapsed = if dt_ms > u32::MAX - self.elapsed_ms {
            u32::MAX
        } else {
            self.elapsed_ms + dt_ms
        };
        self.elapsed_ms = elapsed;
        let done = elapsed >= self.duration_ms;
        let just_finished = !self.finished && done;
        self.finished = self.finished || done;
        just_finished
    }
}

/// The initial ball: centred, moving up-right at the standard velocity.
pub fn initialise_ball() -> (r: (Ball, Transform))
    ensures
        r.0 == (Ball {
            velocity_x: BALL_VELOCITY_X,
            velocity_y: BALL_VELOCITY_Y,
            radius: BALL_RADIUS,
        }),
        r.1 == (Transform {
            x: ARENA_CENTER_X,
            y: ARENA_CENTER_Y,
            scale: ScaleFactor::spec_identity(),
        }),
        r.0.wf(),
{
    let ball = Ball { velocity_x: BALL_VELOCITY_X, velocity_y: BALL_VELOCITY_Y, radius: BALL_RADIUS };
    let transform = Transform {
        x: ARENA_CENTER_X,
        y: ARENA_CENTER_Y,
        scale: ScaleFactor::identity(),
    };
    (ball, transform)
}

/// The two paddles: each flush against its own edge, vertically centred.
pub fn initialise_paddles() -> (r: ((Paddle, Transform), (Paddle, Transform)))
    ensures
        r.0.0 == (Paddle { side: Side::Left, width: PADDLE_WIDTH, height: PADDLE_HEIGHT }),
        r.0.1 == (Transform {
            x: LEFT_PADDLE_X,
            y: ARENA_CENTER_Y,
            scale: ScaleFactor::spec_identity(),
        }),
        r.1.0 == (Paddle { side: Side::Right, width: PADDLE_WIDTH, height: PADDLE_HEIGHT }),
        r.1.1 == (Transform {
            x: RIGHT_PADDLE_X,
            y: ARENA_CENTER_Y,
            scale: ScaleFactor::spec_identity(),
        }),
        r.0.0.wf() && r.1.0.wf(),
{
    let left = (
        Paddle::new(Side::Left),
        Transform { x: LEFT_PADDLE_X, y: ARENA_CENTER_Y, scale: ScaleFactor::identity() },
    );
    let right = (
        Paddle::new(Side::Right),
        Transform {
            x: RIGHT_PADDLE_X,
            y: ARENA_CENTER_Y,
            scale: ScaleFactor::identity(),
        },
    );
    (left, right)
}

/// The camera: centred over the arena, with a virtual screen the size of
/// the arena that stretches onto the window.
pub fn initialise_camera() -> (r: (VirtualScreen, Transform))
    ensures
        r.0 == (VirtualScreen { width: 100, height: 100, scale_type: ScaleType::Stretch }),
        r.1 == (Transform {
            x: ARENA_CENTER_X,
            y: ARENA_CENTER_Y,
            scale: ScaleFactor::spec_identity(),
        }),
{
    let screen = VirtualScreen { width: 100, height: 100, scale_type: ScaleType::Stretch };
    let transform = Transform {
        x: ARENA_CENTER_X,
        y: ARENA_CENTER_Y,
        scale: ScaleFactor::identity(),
    };
    (screen, transform)
}

/// Both players start at zero.
pub fn initialise_scoreboard() -> (sb: ScoreBoard)
    ensures
        sb == (ScoreBoard { score_left: 0, score_right: 0 }),
        sb.wf(),
{
    ScoreBoard { score_left: 0, score_right: 0 }
}

/// Tick the start countdown; the moment it expires, hand back the ball to
/// spawn. Afterwards the timer entity is to be removed by the caller.
pub fn start_game_system(timer: &mut StartTimer, dt_ms: u32) -> (spawned: Option<(Ball, Transform)>)
    ensures
        final(timer).duration_ms == old(timer).duration_ms,
        final(timer).elapsed_ms == if old(timer).elapsed_ms + dt_ms <= u32::MAX {
            old(timer).elapsed_ms + dt_ms
        } else {
            u32::MAX as int
        },
        final(timer).finished == (old(timer).finished
            || final(timer).elapsed_ms >= old(timer).duration_ms),
        spawned is Some <==> (!old(timer).finished && final(timer).finished),
        spawned is Some ==> {
            let r = spawned->Some_0;
            r.0 == (Ball {
                velocity_x: BALL_VELOCITY_X,
                velocity_y: BALL_VELOCITY_Y,
                radius: BALL_RADIUS,
            }) && r.1 == (Transform {
                x: ARENA_CENTER_X,
                y: ARENA_CENTER_Y,
                scale: ScaleFactor::spec_identity(),
            })
        },
{
    if timer.tick(dt_ms) {
        Some(initialise_ball())
    } else {
        None
    }
}

} // verus!
