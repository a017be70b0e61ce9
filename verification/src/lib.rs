//! Simulation core of a small top-down arena game: a player steered by
//! directional keys, monsters that pursue the player, and projectiles fired
//! on a repeating countdown at a randomly chosen monster.
//!
//! All lengths and speeds are carried in tenths of a world unit, so that the
//! game's constants (player speed 150.0, monster speed 52.5, projectile step
//! 4.0 per tick, spawn clearance 28.0) are exact integers. A direction is
//! kept as the un-normalized heading vector it was computed from, together
//! with a speed scalar: the commanded velocity is the unit vector of the
//! heading scaled by the speed, and the zero heading commands a standstill.
//! The physics bridge that integrates these commands and resynchronizes
//! positions is an external service; it reports positions back through the
//! sync methods on [`world::World`].

use vstd::prelude::*;

pub mod geom;
pub mod motion;
pub mod timer;
pub mod world;

verus! {

/// Speed commanded for the player, in tenths of a unit per second (150.0).
pub const PLAYER_SPEED_TENTHS: u32 = 1500;

/// Speed commanded for a monster, in tenths of a unit per second
/// (35% of the player's 150.0, that is 52.5).
pub const MONSTER_SPEED_TENTHS: u32 = 525;

/// Distance a projectile travels per tick, in tenths of a unit (4.0).
pub const PROJECTILE_STEP_TENTHS: u64 = 40;

/// Clearance between the player's centre and a fresh projectile, in tenths
/// of a unit: half the 50-unit player extent plus a small margin (28.0).
pub const SPAWN_CLEARANCE_TENTHS: u64 = 280;

/// Period of the repeating attack countdown, in milliseconds.
pub const ATTACK_PERIOD_MS: u64 = 500;

/// Visual extent of the player, a monster or an obstacle, in tenths of a
/// unit per side (a 50-by-50 square); a physics collider covers half this
/// extent from the centre in each direction.
pub const ENTITY_EXTENT_TENTHS: u64 = 500;

/// Visual extent of a projectile, in tenths of a unit per side (10 by 10).
pub const PROJECTILE_EXTENT_TENTHS: u64 = 100;

} // verus!
