//! Core of a real-time arcade defense simulation.
//!
//! Projectiles launched from defender installations fly toward chosen
//! targets across a 2D plane, where they meet hostile projectiles,
//! structures and drifting pickups. This crate holds the simulation
//! engine itself: fixed-point geometry, countdown timers, the entity
//! world, pairwise collision resolution, lifecycle managers and the
//! top-level state machine. Rendering, audio and input are collaborators
//! that consume the events this engine emits; they live outside.
//!
//! All quantities are integers: positions in milliunits (one thousandth
//! of a world unit), velocities in milliunits per millisecond, times in
//! milliseconds. Scalars such as blast size are scaled by a thousand.

pub mod collision;
pub mod consts;
pub mod debris;
pub mod enemy;
pub mod engine;
pub mod events;
pub mod explosion;
pub mod game_status;
pub mod geom;
pub mod missile;
pub mod player_status;
pub mod powerups;
mod rng;
pub mod silo;
pub mod state;
pub mod team;
pub mod timer;
pub mod world;
