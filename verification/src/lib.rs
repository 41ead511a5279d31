//! Combat core of a small side-scrolling action game: a player actor and
//! hostile actors exchange damage through frame-precise attack hitboxes,
//! move under simplified fixed-step physics, and transition through explicit
//! behavioural states. World distances are measured in subunits: 16 subunits
//! per sprite-sheet pixel, so that per-tick physics (half-pixel gravity,
//! fractional friction) stays in exact integer arithmetic.

use vstd::prelude::*;

pub mod attack;
pub mod controls;
pub mod game;
pub mod geom;
pub mod hero;
pub mod monster;
pub mod rng;
pub mod sound_system;
pub mod sprite;
pub mod wave;

verus! {

/// Subunits per sprite-sheet pixel.
pub const SCALE: i32 = 16;

/// Positions are kept within this many subunits of the origin on each axis.
pub const POS_LIMIT: i32 = 1_000_000;

/// Velocity components are kept within this many subunits per tick.
pub const VEL_LIMIT: i32 = 2_048;

/// Magnitude of the velocity impulse a body collision gives the player,
/// in subunits per tick (8 pixels per tick).
pub const KNOCKBACK_SPEED: i32 = 128;

} // verus!
