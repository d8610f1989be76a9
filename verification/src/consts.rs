//! Fixed-point constants of the simulation.
//!
//! Distances are in milliunits (mu): one world unit is 1000 mu.
//! Velocities are in milliunits per millisecond, which is numerically
//! the same as world units per second. Times are in milliseconds and
//! dimensionless scalars (blast size, its multiplier) are in
//! thousandths.

use vstd::prelude::*;

verus! {

/// Positions are kept within this bound (milliunits); the physics step
/// saturates here. The playfield is a few hundred thousand milliunits
/// wide, so the bound is never reached in play; it exists so that
/// squared distances provably fit the machine's integers.
pub const POS_LIMIT: i64 = 1_000_000_000_000_000;

/// Velocities never exceed this bound (milliunits per millisecond).
pub const VEL_LIMIT: i64 = 1_000_000;

/// A single tick covers at most this much elapsed time (milliseconds).
pub const DT_LIMIT: u64 = 1_000_000;

/// Collision radii never exceed this bound (milliunits).
pub const RADIUS_LIMIT: i64 = 1_000_000_000;

/// Timer durations never exceed this bound (milliseconds).
pub const DURATION_LIMIT: u64 = 1_000_000_000;

/// Speed of a defender projectile at launch, without bonus (mu/ms).
pub const PLAYER_MISSILE_SPEED: i64 = 200;

/// Speed of a hostile projectile at launch (mu/ms).
pub const ENEMY_MISSILE_SPEED: i64 = 120;

/// Collision radius of a projectile (mu); 3.5 world units.
pub const MISSILE_RADIUS: i64 = 3_500;

/// Base collision radius of a blast volume at full size (mu).
pub const EXPLOSION_RADIUS: i64 = 32_000;

/// A blast volume despawns when its size scalar falls below this
/// (thousandths); 0.01 of full size.
pub const EXPLOSION_MIN_SIZE: u32 = 10;

/// The neutral blast-size multiplier (thousandths).
pub const BASE_EXPLOSION_MULT: u32 = 1_000;

/// Blast-size multiplier granted by the matching pickup (thousandths).
pub const BONUS_EXPLOSION_MULT: u32 = 2_000;

/// Largest blast-size multiplier the simulation accepts (thousandths).
pub const MAX_EXPLOSION_MULT: u32 = 2_000;

/// Projectile speed granted by the matching pickup (mu/ms).
pub const BONUS_MISSILE_SPEED: i64 = 400;

/// How long a pickup bonus lasts (ms).
pub const POWERUP_TIME: u64 = 10_000;

/// Collision radius of a pickup (mu).
pub const POWERUP_RADIUS: i64 = 16_000;

/// Horizontal drift speed of a pickup (mu/ms).
pub const POWERUP_DRIFT_SPEED: i64 = 100;

/// A projectile below this height has struck the ground (mu).
pub const GROUND_PLANE_Y: i64 = -296_000;

/// Height at which debris settles (mu).
pub const DEBRIS_Y: i64 = -280_000;

/// A projectile closer to its target than this squared distance
/// detonates (mu squared); 10 squared world units.
pub const TARGET_EPSILON_SQ: i128 = 10_000_000;

/// Rounds an installation can hold.
pub const SILO_MAX_MISSILES: u8 = 3;

/// Time to reload a single round (ms).
pub const SILO_RELOAD_TIME: u64 = 3_000;

/// Score for a hostile projectile caught in a blast.
pub const MISSILE_VALUE: u64 = 10;

/// Score for a hostile projectile struck directly by a defender
/// projectile.
pub const MISSILE_HIT_VALUE: u64 = 20;

/// Score granted by a score pickup.
pub const SCORE_POWERUP_VALUE: u64 = 100;

/// Half-width of a building footprint (mu).
pub const BUILDING_HALF_WIDTH: i64 = 16_000;

/// Half-height of a building footprint (mu).
pub const BUILDING_HALF_HEIGHT: i64 = 20_000;

/// Vertical offset of a building footprint (mu).
pub const BUILDING_Y_OFFSET: i64 = -12_000;

/// Half-width of an installation footprint (mu).
pub const SILO_HALF_WIDTH: i64 = 32_000;

/// Half-height of an installation footprint (mu).
pub const SILO_HALF_HEIGHT: i64 = 16_000;

/// Vertical offset of an installation footprint (mu).
pub const SILO_Y_OFFSET: i64 = 0;

/// Period of the hostile-projectile spawner (ms).
pub const ENEMY_SPAWN_TIME: u64 = 3_000;

/// Period of the hostile volley spawner (ms).
pub const ENEMY_VOLLEY_TIME: u64 = 12_000;

/// Hostile projectiles in one volley.
pub const ENEMY_VOLLEY_COUNT: usize = 3;

/// Period of the pickup spawner (ms).
pub const POWERUP_SPAWN_TIME: u64 = 10_000;

} // verus!
