//! Core of a minimal two-player Pong game: paddle movement, ball physics
//! with boundary handling, and circle-vs-rectangle collision detection.
//!
//! All geometry is carried in integer milliunits: one logical field unit is
//! 1000 milliunits, so half-unit sprite extents stay exact. Velocities and
//! paddle speeds are stored in milliunits per millisecond, which is
//! numerically the same figure as logical units per second. Elapsed frame
//! time is measured in whole milliseconds.
//!
//! Rendering, window management and input polling belong to the surrounding
//! host program; this crate only computes game state.

use vstd::prelude::*;

pub mod ball;
pub mod clock;
pub mod game;
pub mod geometry;
pub mod paddle;

verus! {

/// Width of the logical play field, in milliunits (1280 units).
pub const WINDOW_WIDTH: i64 = 1_280_000;

/// Height of the logical play field, in milliunits (720 units).
pub const WINDOW_HEIGHT: i64 = 720_000;

/// Horizontal distance of each paddle's center from its field edge,
/// in milliunits (50 units).
pub const PADDLE_OFFSET: i64 = 50_000;

/// Horizontal speed the ball starts with, in milliunits per millisecond
/// (200 units per second).
pub const BALL_START_VELOCITY: i64 = 200;

/// Speed of both paddles, in milliunits per millisecond
/// (200 units per second).
pub const PADDLE_SPEED: i64 = 200;

/// Upper bound on a single frame's delta time, in milliseconds (one hour).
/// A clock reading beyond this is clamped so that one frame's motion
/// arithmetic always fits in 64 bits.
pub const DELTA_TIME_CAP_MS: i64 = 3_600_000;

/// Delta time assumed for the very first frame, in milliseconds.
pub const START_DELTA_MS: i64 = 160;

/// Bound on coordinates accepted by a frame update; far beyond the field,
/// but small enough that one frame of motion cannot overflow an `i64`.
pub const COORD_LIMIT: i64 = 100_000_000_000_000_000;

/// Looser coordinate bound accepted by the collision primitives, so that
/// they still apply to a paddle that has just moved beyond `COORD_LIMIT`.
pub const COORD_HARD_LIMIT: i64 = 200_000_000_000_000_000;

/// Bound on sprite dimensions and collision radii, in milliunits.
pub const DIM_LIMIT: i64 = 1_000_000_000;

/// Bound on velocity components, in milliunits per millisecond.
pub const VEL_LIMIT: i64 = 1_000_000;

/// Bound on paddle speed, in milliunits per millisecond.
pub const SPEED_LIMIT: i64 = 1_000_000;

} // verus!
