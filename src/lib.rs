//! Game logic of a small "click the balls" game.
//!
//! Coordinates are integers in thousandths of a pixel, with the origin at the
//! centre of the window and `y` growing upwards. The physics runs at a fixed
//! step: a ball's velocity is the distance it covers in one step.
use vstd::prelude::*;

pub mod ball;
pub mod cursor;
pub mod game;
pub mod layout;
pub mod random;
pub mod timer;

verus! {

/// Sub-pixel units per pixel.
pub const UNITS_PER_PIXEL: i64 = 1000;

/// Width of the window, in units.
pub const WINDOW_WIDTH: i64 = 640000;

/// Height of the window, in units.
pub const WINDOW_HEIGHT: i64 = 480000;

/// Diameter of a ball, in units.
pub const BALL_SIZE: i64 = 30000;

/// How far inside its rim a click must land to hit a round target, in units.
pub const CURSOR_RANGE: i64 = 10000;

/// No coordinate leaves `[-WORLD_LIMIT, WORLD_LIMIT]`.
pub const WORLD_LIMIT: i64 = 268435456;

/// No velocity component leaves `[-SPEED_LIMIT, SPEED_LIMIT]`.
pub const SPEED_LIMIT: i64 = 1048576;

} // verus!
