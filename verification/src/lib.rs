//! Core simulation of an Asteroids-style arcade game.
//!
//! All geometry is fixed-point: lengths and coordinates are measured in
//! milli-pixels, angles in tenths of a degree, time in microseconds.
//! Physics advances at a fixed sub-step rate decoupled from the frame rate.

pub mod boundary;
pub mod collision;
pub mod components;
pub mod control;
pub mod fixed;
pub mod hits;
pub mod motion;
pub mod render;
pub mod rng;
pub mod schedule;
pub mod spawning;
pub mod trig;
pub mod weapon;
pub mod world;

use vstd::prelude::*;

verus! {

/// Fixed-point scale: one pixel is 1000 milli-pixels, a factor of one is 1000.
pub const MILLI: i64 = 1000;

/// Largest coordinate the simulation tracks, in milli-pixels.
pub const COORD_MAX: i64 = 1_000_000_000;

/// Largest linear speed the simulation tracks, in milli-pixels per second.
pub const VEL_MAX: i64 = 1_000_000_000;

/// Largest collision radius, in milli-pixels.
pub const RADIUS_MAX: i64 = 1_000_000;

/// Angle units: tenths of a degree; a full turn.
pub const TURN_FULL: i64 = 3600;

/// Half a turn and a quarter turn, in angle units.
pub const TURN_HALF: i64 = 1800;
pub const TURN_QUARTER: i64 = 900;

/// Rotation accumulates without wrapping; it is clamped at this bound,
/// a multiple of a full turn far beyond any reachable rotation.
pub const ROT_BOUND: i64 = 3600 * 277_777_777_778;

/// Largest angular speed, in angle units per second.
pub const ANG_MAX: i64 = 1_000_000;

/// Largest thrust force, in milli-pixels per second per sub-step.
pub const FORCE_MAX: i64 = 1_000_000;

/// Physics sub-steps per second (fixed timestep).
pub const SUBSTEP_HZ: i64 = 120;

/// Asteroid size-class radius ranges, in milli-pixels; each class is the
/// half-open range `[min, max)`.
pub const SMALL_ASTEROID_MIN: i64 = 10_000;
pub const SMALL_ASTEROID_MAX: i64 = 20_000;
pub const MEDIUM_ASTEROID_MIN: i64 = 30_000;
pub const MEDIUM_ASTEROID_MAX: i64 = 40_000;
pub const BIG_ASTEROID_MIN: i64 = 50_000;
pub const BIG_ASTEROID_MAX: i64 = 60_000;

} // verus!
