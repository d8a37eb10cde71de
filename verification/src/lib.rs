//! Core simulation engine for a real-time two-paddle ball game.
//!
//! The engine owns the entities of one session (a ball, two paddles and a
//! score board), advances them with a fixed-timestep integrator, resolves
//! wall and paddle collisions with scoring and speed escalation, and maps
//! discrete key events onto paddle velocities.  Windowing, rendering and
//! event polling are left to the caller; the engine only exchanges plain
//! values with them.
//!
//! All quantities are exact integers: positions and sizes are measured in
//! microunits (one game-space unit is `config::UNIT` microunits), velocities
//! in game-space units per second, and time in microseconds.  A body with
//! velocity `v` that moves for `dt` microseconds therefore advances by
//! exactly `v * dt` microunits.

pub mod collide;
pub mod components;
pub mod config;
pub mod input;
pub mod integrate;
pub mod physics;
pub mod session;
pub mod store;
