//! The component values attached to entities: rectangular bodies, velocities,
//! score counters and role tags.

use vstd::prelude::*;

verus! {

/// Axis-aligned rectangle in game space: `(x, y)` is the top-left corner.
/// All four fields are in position microunits (`config::UNIT` per game-space
/// unit).  `width` and `height` are positive and constant for the entity's
/// lifetime.
#[derive(Clone, Copy, Debug, PartialEq, Eq, Structural)]
pub struct Position {
    pub x: i64,
    pub y: i64,
    pub width: i64,
    pub height: i64,
}

/// Velocity in game-space units per second.  No invariant on sign; the
/// magnitude changes only through collision resolution or input mapping.
#[derive(Clone, Copy, Debug, PartialEq, Eq, Structural)]
pub struct Velocity {
    pub dx: i64,
    pub dy: i64,
}

/// The two score counters.  Incremented by the collision resolver, never
/// decremented, never reset during a session.
#[derive(Clone, Copy, Debug, PartialEq, Eq, Structural)]
pub struct Score {
    pub p1: u16,
    pub p2: u16,
}

/// Role tag deciding which systems touch an entity.  A session holds exactly
/// one `Ball` and exactly two `Paddle` entities for its whole lifetime.
#[derive(Clone, Copy, Debug, PartialEq, Eq, Structural)]
pub enum Role {
    Ball,
    Paddle,
}

} // verus!
