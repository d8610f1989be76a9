//! Sides of the battle.
//!
//! `Team` tags an entity with the side it fights for. The zero-sized
//! `PlayerTeam` and `EnemyTeam` markers exist for callers that keep
//! per-side collections and want a type-level witness of the side.

use vstd::prelude::*;

verus! {

/// The side an entity fights for.
#[derive(Clone, Copy, PartialEq, Eq, Structural, Debug)]
pub enum Team {
    Player,
    Enemy,
}

/// Marker for defender-side collections.
#[derive(Clone, Copy, PartialEq, Eq, Structural, Debug)]
pub struct PlayerTeam;

/// Marker for hostile-side collections.
#[derive(Clone, Copy, PartialEq, Eq, Structural, Debug)]
pub struct EnemyTeam;

} // verus!
