//! The fixed numeric configuration of the game.
//!
//! Geometry is measured in position subunits: one playfield unit is `UNIT`
//! subunits. Time is measured in microseconds, and velocities in playfield
//! units per second. Since `UNIT` equals the number of microseconds in a
//! second, a velocity is numerically a count of position subunits per
//! microsecond, and `position + velocity * elapsed_micros` is exact.

use vstd::prelude::*;

verus! {

/// Position subunits per playfield unit (and microseconds per second).
pub const UNIT: i64 = 1_000_000;

/// Center x of the left boundary wall, in subunits.
pub const LEFT_WALL: i64 = -450 * UNIT;
/// Center x of the right boundary wall, in subunits.
pub const RIGHT_WALL: i64 = 450 * UNIT;
/// Center y of the bottom boundary wall, in subunits.
pub const BOTTOM_WALL: i64 = -300 * UNIT;
/// Center y of the top boundary wall, in subunits.
pub const TOP_WALL: i64 = 300 * UNIT;

/// Thickness of every boundary wall, in subunits.
pub const WALL_THICKNESS: i64 = 10 * UNIT;
/// Inner width of the playfield, in subunits.
pub const WALL_BLOCK_WIDTH: i64 = RIGHT_WALL - LEFT_WALL;
/// Inner height of the playfield, in subunits.
pub const WALL_BLOCK_HEIGHT: i64 = TOP_WALL - BOTTOM_WALL;
/// Half of a wall's thickness, in subunits.
pub const WALL_HALF_THICKNESS: i64 = 5 * UNIT;
/// Full height of the left and right walls, in subunits.
pub const VERTICAL_WALL_HEIGHT: i64 = WALL_BLOCK_HEIGHT + WALL_THICKNESS;
/// Full width of the bottom and top walls, in subunits.
pub const HORIZONTAL_WALL_WIDTH: i64 = WALL_BLOCK_WIDTH + WALL_THICKNESS;
/// Half height of the left and right walls, in subunits.
pub const VERTICAL_WALL_HALF_HEIGHT: i64 = 305 * UNIT;
/// Half width of the bottom and top walls, in subunits.
pub const HORIZONTAL_WALL_HALF_WIDTH: i64 = 455 * UNIT;

/// Paddle width, in subunits.
pub const PADDLE_WIDTH: i64 = 120 * UNIT;
/// Paddle height, in subunits.
pub const PADDLE_HEIGHT: i64 = 20 * UNIT;
/// Half of the paddle's width, in subunits.
pub const PADDLE_HALF_WIDTH: i64 = 60 * UNIT;
/// Half of the paddle's height, in subunits.
pub const PADDLE_HALF_HEIGHT: i64 = 10 * UNIT;
/// The paddle's fixed y coordinate, in subunits.
pub const PADDLE_START_Y: i64 = 0;
/// Horizontal paddle speed, in units per second.
pub const PADDLE_SPEED: i64 = 500;
/// Leftmost x the paddle's center may reach, in subunits.
pub const PADDLE_MIN_X: i64 = LEFT_WALL + WALL_HALF_THICKNESS + PADDLE_HALF_WIDTH;
/// Rightmost x the paddle's center may reach, in subunits.
pub const PADDLE_MAX_X: i64 = RIGHT_WALL - WALL_HALF_THICKNESS - PADDLE_HALF_WIDTH;

/// Ball diameter, in subunits.
pub const BALL_DIAMETER: i64 = 30 * UNIT;
/// Ball radius, in subunits.
pub const BALL_RADIUS: i64 = 15 * UNIT;
/// The ball's starting x coordinate, in subunits.
pub const BALL_START_X: i64 = -75 * UNIT;
/// The ball's starting y coordinate, in subunits.
pub const BALL_START_Y: i64 = 75 * UNIT;
/// The ball's starting horizontal velocity, in units per second: the nearest
/// integer to a 400-units-per-second speed along the diagonal (1, -1).
pub const BALL_START_VX: i64 = 283;
/// The ball's starting vertical velocity, in units per second.
pub const BALL_START_VY: i64 = -283;

/// Numerator of the speed-up factor applied by a reflection (1.05 = 105/100).
pub const BOUNCE_NUMERATOR: i64 = 105;
/// Denominator of the speed-up factor applied by a reflection.
pub const BOUNCE_DENOMINATOR: i64 = 100;

/// Longest tick the simulation accepts: one second, in microseconds.
pub const DT_MAX: u64 = 1_000_000;

/// Largest velocity magnitude a tick accepts, in units per second.
pub const VEL_LIMIT: i64 = 1_000_000_000_000;
/// Largest ball coordinate magnitude a tick accepts, in subunits.
pub const POS_LIMIT: i64 = 4_000_000_000_000_000_000;
/// Largest ball coordinate magnitude the collision test accepts, in subunits:
/// how far a ball within `POS_LIMIT` can travel in one tick.
pub const TRAVEL_LIMIT: i64 = POS_LIMIT + VEL_LIMIT * 1_000_000;
/// Largest collider coordinate or half-extent the collision test accepts.
pub const GEOMETRY_LIMIT: i64 = 1_000_000_000;
/// Largest velocity magnitude a single collision step accepts.
pub const VEL_STEP_LIMIT: i64 = 100_000_000_000_000;

} // verus!
