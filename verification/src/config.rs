//! Tunable constants of the simulation.
//!
//! Distances are in playfield units, speeds in units per second, and times
//! in milliseconds.

use vstd::prelude::*;

verus! {

/// Shots the magazine holds when full.
pub const MAX_AMMO: u32 = 60;

/// Life tokens at the start of a run.
pub const MAX_LIVES: u32 = 3;

/// Score awarded for each asteroid destroyed by a projectile.
pub const SCORE_REWARD: u64 = 100;

/// A fire attempt succeeds only strictly more than this long after the
/// previous successful shot.
pub const FIRE_COOLDOWN_MS: u64 = 100;

/// Wall time between the magazine running dry and its refill.
pub const RELOAD_DURATION_MS: u64 = 2000;

/// Lateral speed of the player ship.
pub const PLAYER_SPEED: i64 = 600;

/// Upward speed of a projectile.
pub const SHOT_SPEED: i64 = 400;

/// Side length of the (square) ship sprite; the collision circle uses half.
pub const SHIP_SIZE: i64 = 80;

/// Collision radius of the player ship: half of `SHIP_SIZE`.
pub const PLAYER_RADIUS: i64 = 40;

/// Collision radius of an asteroid.
pub const ASTEROID_RADIUS: i64 = 25;

/// Collision radius of a projectile.
pub const PROJECTILE_RADIUS: i64 = 10;

/// Slowest fall speed an asteroid can be dealt at spawn.
pub const ASTEROID_MIN_SPEED: i64 = 150;

/// Fall speeds at spawn are drawn from `ASTEROID_MIN_SPEED..ASTEROID_MAX_SPEED`.
pub const ASTEROID_MAX_SPEED: i64 = 400;

/// Horizontal drift at spawn is drawn from `-ASTEROID_DRIFT_MAX..ASTEROID_DRIFT_MAX`.
pub const ASTEROID_DRIFT_MAX: i64 = 40;

/// Size of the fixed asteroid pool.
pub const ASTEROID_COUNT: usize = 40;

/// Random horizontal positions keep this distance from the side walls.
pub const SPAWN_MARGIN: i64 = 50;

/// A projectile is destroyed once it climbs above `half_h - CULL_MARGIN`.
pub const CULL_MARGIN: i64 = 10;

/// The ship sits this far above the bottom edge of the playfield.
pub const PLAYER_SPAWN_OFFSET: i64 = 80;

/// Half extents of the playfield stay below this, so that squared
/// distances and scaled displacements fit comfortably in `i64`.
pub const MAX_HALF_EXTENT: i64 = 1_000_000;

/// Half extents of the playfield stay at or above this, so that spawn
/// ranges and the player clamp interval are never empty.
pub const MIN_HALF_EXTENT: i64 = 100;

/// A single frame advances wall time by at most this much; together with
/// `MAX_HALF_EXTENT` it keeps every displacement product inside `i64`.
pub const MAX_DT_MS: u64 = 1_000_000_000;

/// Clock readings handed to the core stay below this (about 146 million
/// years of milliseconds), so deadline arithmetic cannot overflow `u64`.
pub const MAX_NOW_MS: u64 = 0x4000_0000_0000_0000;

} // verus!
