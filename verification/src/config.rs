//! Session configuration: playfield geometry, body sizes, speeds and the
//! arithmetic limits the engine works within.  All of these are fixed at
//! session start and never change afterwards.

use vstd::prelude::*;

verus! {

/// Position microunits per game-space unit.  Positions and sizes are stored
/// in microunits; velocities are stored in game-space units per second, so a
/// body moving for `dt` microseconds advances by `velocity * dt` microunits.
pub const UNIT: i64 = 1_000_000;

/// Playfield width, in microunits.
pub const FIELD_WIDTH: i64 = 800 * 1_000_000;

/// Playfield height, in microunits.
pub const FIELD_HEIGHT: i64 = 450 * 1_000_000;

/// Paddle width, in microunits.
pub const PADDLE_WIDTH: i64 = 20 * 1_000_000;

/// Paddle height, in microunits.
pub const PADDLE_HEIGHT: i64 = 80 * 1_000_000;

/// Vertical speed given to a paddle while a movement key is held, in
/// game-space units per second.
pub const PADDLE_SPEED: i64 = 480;

/// Ball width, in microunits.
pub const BALL_WIDTH: i64 = 20 * 1_000_000;

/// Ball height, in microunits.
pub const BALL_HEIGHT: i64 = 20 * 1_000_000;

/// Ball start (and post-score reset) x coordinate, in microunits.
pub const BALL_START_X: i64 = 150 * 1_000_000;

/// Ball start (and post-score reset) y coordinate, in microunits.
pub const BALL_START_Y: i64 = 150 * 1_000_000;

/// Ball start (and post-score reset) horizontal velocity, in units per second.
pub const BALL_START_DX: i64 = 180;

/// Ball start (and post-score reset) vertical velocity, in units per second.
pub const BALL_START_DY: i64 = 225;

/// Speed escalation added to the magnitude of the inverted velocity
/// component on every bounce, in units per second.
pub const SPEED_BOOST: i64 = 12;

/// Left paddle start x coordinate, in microunits.
pub const PADDLE1_START_X: i64 = 80 * 1_000_000;

/// Right paddle start x coordinate, in microunits.
pub const PADDLE2_START_X: i64 = 680 * 1_000_000;

/// Start y coordinate shared by both paddles, in microunits.
pub const PADDLE_START_Y: i64 = 40 * 1_000_000;

/// Target duration of one tick, in microseconds (about 60 ticks per second).
pub const TICK_MICROS: u64 = 16_670;

/// Largest coordinate magnitude, in microunits, at which a tick is still
/// accepted.  Far beyond anything reachable in play; it only keeps every
/// intermediate product and sum of a tick inside `i64`.
pub const POS_LIMIT: i64 = 4_000_000_000_000_000;

/// Largest velocity magnitude, in units per second, at which a tick is still
/// accepted.
pub const VEL_LIMIT: i64 = 1_000_000_000;

/// Largest elapsed time accepted for one tick, in microseconds (ten seconds).
pub const DT_LIMIT: u64 = 10_000_000;

} // verus!
