//! A verified core for a two-paddle arcade game: per-frame simulation
//! systems (paddle movement, ball integration, bounce resolution, scoring)
//! and a virtual-screen camera scaler, all over exact integer arithmetic.
//!
//! Positions and lengths are measured in thousandths of an arena unit
//! ("milli-units"), velocities in whole units per second, and time in
//! milliseconds, so one unit per second sustained for one millisecond moves
//! a point by exactly one milli-unit and explicit-Euler integration is
//! exact over the integers. Camera scale factors are exact rationals.
//!
//! The host engine (windowing, rendering, audio, input polling, the entity
//! store and the scheduler) stays outside: each system here is a pure
//! function of the component data the engine hands it, and reports the
//! sounds to play through its result.

pub mod bounce;
pub mod camera;
pub mod move_balls;
pub mod paddle;
pub mod winner;
pub mod game;
