//! Single-frame event queues.
//!
//! Producers enqueue during a tick; consumers drain at the start of
//! the next tick, never within the same resolution pass. This bounded
//! one-tick latency keeps event cascades finite.

use vstd::prelude::*;

use crate::consts::{MAX_EXPLOSION_MULT, VEL_LIMIT};
use crate::debris::SpawnDebris;
use crate::geom::Vec2;
use crate::missile::SpawnMissile;
use crate::powerups::SpawnPowerup;
use crate::silo::SiloMissileCountUpdate;
use crate::team::Team;

verus! {

/// A request to open a blast volume next tick.
#[derive(Clone, Copy, PartialEq, Eq, Structural, Debug)]
pub struct SpawnExplosion {
    /// Centre of the blast (mu).
    pub position: Vec2,
    /// The side the blast belongs to; only defender blasts take part
    /// in the offence rules.
    pub team: Team,
    /// Blast-size multiplier in thousandths; 1000 is neutral.
    pub size_milli: u32,
}

impl SpawnExplosion {
    pub open spec fn wf(self) -> bool {
        self.position.in_pos_bounds() && 0 < self.size_milli <= MAX_EXPLOSION_MULT
    }
}

/// A score delta for the accumulated total.
#[derive(Clone, Copy, PartialEq, Eq, Structural, Debug)]
pub struct UpdateScore(pub u64);

/// Sets the defender's blast-size multiplier (thousandths) and
/// restarts its expiry countdown.
#[derive(Clone, Copy, PartialEq, Eq, Structural, Debug)]
pub struct SetPlayerExplosionSize(pub u32);

impl SetPlayerExplosionSize {
    pub open spec fn wf(self) -> bool {
        0 < self.0 <= MAX_EXPLOSION_MULT
    }
}

/// Sets the defender's projectile speed (mu/ms) and restarts its
/// expiry countdown.
#[derive(Clone, Copy, PartialEq, Eq, Structural, Debug)]
pub struct SetPlayerMissileSpeed(pub i64);

impl SetPlayerMissileSpeed {
    pub open spec fn wf(self) -> bool {
        0 < self.0 <= VEL_LIMIT
    }
}

/// What caused a sound, for the audio collaborator.
#[derive(Clone, Copy, PartialEq, Eq, Structural, Debug)]
pub enum SoundCue {
    /// A pickup was collected.
    Pickup,
}

/// A fire-and-forget request to the audio collaborator.
#[derive(Clone, Copy, PartialEq, Eq, Structural, Debug)]
pub struct PlayAudio {
    /// What happened.
    pub cue: SoundCue,
}

/// Every queue the simulation writes during one tick.
#[derive(Clone, Debug)]
pub struct FrameEvents {
    pub spawn_missiles: Vec<SpawnMissile>,
    pub spawn_explosions: Vec<SpawnExplosion>,
    pub spawn_powerups: Vec<SpawnPowerup>,
    pub spawn_debris: Vec<SpawnDebris>,
    pub score: Vec<UpdateScore>,
    pub blast_bonus: Vec<SetPlayerExplosionSize>,
    pub speed_bonus: Vec<SetPlayerMissileSpeed>,
    pub ammo: Vec<SiloMissileCountUpdate>,
    pub sounds: Vec<PlayAudio>,
}

impl FrameEvents {
    pub open spec fn wf(self) -> bool {
        &&& forall|i: int|
            0 <= i < self.spawn_missiles@.len() ==> (#[trigger] self.spawn_missiles@[i]).wf()
        &&& forall|i: int|
            0 <= i < self.spawn_explosions@.len() ==> (#[trigger] self.spawn_explosions@[i]).wf()
        &&& forall|i: int|
            0 <= i < self.spawn_powerups@.len() ==> (#[trigger] self.spawn_powerups@[i]).wf()
        &&& forall|i: int|
            0 <= i < self.spawn_debris@.len() ==> (#[trigger] self.spawn_debris@[i]).wf()
        &&& forall|i: int|
            0 <= i < self.blast_bonus@.len() ==> (#[trigger] self.blast_bonus@[i]).wf()
        &&& forall|i: int|
            0 <= i < self.speed_bonus@.len() ==> (#[trigger] self.speed_bonus@[i]).wf()
    }

    /// All queues empty.
    pub fn new() -> (ev: FrameEvents)
        ensures
            ev.wf(),
            ev.spawn_missiles@.len() == 0,
            ev.spawn_explosions@.len() == 0,
            ev.spawn_powerups@.len() == 0,
            ev.spawn_debris@.len() == 0,
            ev.score@.len() == 0,
            ev.blast_bonus@.len() == 0,
            ev.speed_bonus@.len() == 0,
            ev.ammo@.len() == 0,
            ev.sounds@.len() == 0,
    {
        FrameEvents {
            spawn_missiles: Vec::new(),
            spawn_explosions: Vec::new(),
            spawn_powerups: Vec::new(),
            spawn_debris: Vec::new(),
            score: Vec::new(),
            blast_bonus: Vec::new(),
            speed_bonus: Vec::new(),
            ammo: Vec::new(),
            sounds: Vec::new(),
        }
    }
}

} // verus!
