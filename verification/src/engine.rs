//! The assembled simulation.
//!
//! The engine owns the world, the singletons, the spawners, the event
//! queues and the state machine, and advances them one tick at a
//! time: apply last tick's queued events, take fire input, integrate
//! physics, resolve collisions, advance timers, then apply any state
//! transition the tick requested. Only play-state ticks run the
//! simulation systems; every other state leaves the engine untouched.

use vstd::prelude::*;

use crate::collision::{
    building_struck_spec, enemy_missile_collisions, enemy_missile_hit_spec,
    enemy_missile_strikes_spec, explosion_collisions, missile_collisions, missile_grounded_spec,
    missile_ground_collisions, missile_in_blast_spec, player_missile_hits_spec,
    player_missile_takes_spec, powerup_collisions, powerup_in_blast_spec, powerup_taken_spec,
    silo_struck_spec,
};
use crate::consts::{
    BASE_EXPLOSION_MULT, BONUS_EXPLOSION_MULT, BONUS_MISSILE_SPEED, DT_LIMIT, ENEMY_VOLLEY_COUNT,
    MISSILE_HIT_VALUE, MISSILE_VALUE, SCORE_POWERUP_VALUE, SILO_MAX_MISSILES,
};
use crate::debris::{spawn_debris, spawned_debris_spec};
use crate::enemy::{enemy_spawn_shape_spec, update_timer, EnemyMissileSpawner};
use crate::events::{
    FrameEvents, PlayAudio, SetPlayerExplosionSize, SetPlayerMissileSpeed, SoundCue,
    SpawnExplosion, UpdateScore,
};
use crate::explosion::{
    decay_explosion_spec, explosion_alive_spec, spawn_explosions, spawned_explosions_spec,
    update_explosions, Explosion,
};
use crate::game_status::GameStatus;
use crate::geom;
use crate::geom::{Vec2, Viewport};
use crate::missile::{
    blast_of_missile_spec, check_target_reached, spawn_missiles, spawned_missiles_spec,
    target_reached_spec, Missile, SpawnMissile,
};
use crate::player_status::{handle_events_spec, run_timers_spec, PlayerStatus};
use crate::powerups::{
    check_offscreen_powerups, powerup_offscreen_spec, powerup_spawn_shape_spec,
    run_powerup_spawner, spawn_powerups, spawned_powerups_spec, Powerup, PowerupSpawner,
    PowerupType,
};
use crate::silo::{
    fire_silos, run_reload_timers, silo_after_fire_spec, silo_fires_spec, silo_reload_spec,
    silo_reloaded_spec, wants_fire_spec, Silo, SiloLocation, SiloMissileCountUpdate,
};
use crate::state::{GameFlow, GameState};
use crate::team::Team;
use crate::timer::timer_tick_spec;
use crate::world::{Building, World, WorldModel};

verus! {

/// Scene measurements handed over by the asset collaborator at play
/// start: the heights of the loaded art, in milliunits.
#[derive(Clone, Copy, PartialEq, Eq, Structural, Debug)]
pub struct SceneConfig {
    pub ground_height: i64,
    pub silo_height: i64,
    pub building_height: i64,
}

impl SceneConfig {
    pub open spec fn wf(self) -> bool {
        &&& 0 < self.ground_height <= 1_000_000_000
        &&& 0 < self.silo_height <= 1_000_000_000
        &&& 0 < self.building_height <= 1_000_000_000
    }
}

/// The discrete signals one tick carries in from the input
/// collaborator: a fire action per installation and the world-space
/// target under the cursor.
#[derive(Clone, Copy, PartialEq, Eq, Structural, Debug)]
pub struct TickInput {
    pub fire_left: bool,
    pub fire_middle: bool,
    pub fire_right: bool,
    pub target: Vec2,
}

/// The horizontal pitch of the nine baseline slots: three
/// installations and six buildings share the window width.
pub open spec fn slot_step_spec(vp: Viewport) -> int {
    2 * vp.half_width / 9
}

/// The horizontal centre of baseline slot `i`.
pub open spec fn slot_x_spec(vp: Viewport, i: int) -> int {
    slot_step_spec(vp) * i + slot_step_spec(vp) / 2 - vp.half_width
}

/// The height installations stand at.
pub open spec fn silo_y_spec(vp: Viewport, cfg: SceneConfig) -> int {
    cfg.silo_height / 2 + cfg.ground_height - vp.half_height
}

/// The height buildings stand at.
pub open spec fn building_y_spec(vp: Viewport, cfg: SceneConfig) -> int {
    cfg.building_height / 2 + cfg.ground_height - vp.half_height
}

/// Which baseline slot the `k`-th building occupies; installations
/// take slots 0, 4 and 8.
pub open spec fn building_slot_spec(k: int) -> int {
    if k < 3 {
        k + 1
    } else {
        k + 2
    }
}

/// The scene as play starts: three installations on slots 0, 4 and 8,
/// each one round short of full with its reload running, and six
/// buildings on the slots between.
pub open spec fn initial_scene_spec(w: World, vp: Viewport, cfg: SceneConfig) -> bool {
    &&& w.silos@.len() == 3
    &&& w.silos@[0].location == SiloLocation::Left
    &&& w.silos@[1].location == SiloLocation::Middle
    &&& w.silos@[2].location == SiloLocation::Right
    &&& w.silos@[0].pos == (Vec2 {
        x: slot_x_spec(vp, 0) as i64,
        y: silo_y_spec(vp, cfg) as i64,
    })
    &&& w.silos@[1].pos == (Vec2 {
        x: slot_x_spec(vp, 4) as i64,
        y: silo_y_spec(vp, cfg) as i64,
    })
    &&& w.silos@[2].pos == (Vec2 {
        x: slot_x_spec(vp, 8) as i64,
        y: silo_y_spec(vp, cfg) as i64,
    })
    &&& forall|k: int|
        0 <= k < 3 ==> (#[trigger] w.silos@[k]).missiles == SILO_MAX_MISSILES - 1
            && w.silos@[k].reload == crate::timer::Timer::spec_reload()
    &&& w.buildings@.len() == 6
    &&& forall|k: int|
        0 <= k < 6 ==> (#[trigger] w.buildings@[k]).pos == (Vec2 {
            x: slot_x_spec(vp, building_slot_spec(k)) as i64,
            y: building_y_spec(vp, cfg) as i64,
        })
    &&& w.missiles@.len() == 0
    &&& w.explosions@.len() == 0
    &&& w.powerups@.len() == 0
    &&& w.debris@.len() == 0
}

/// Lays the scene out in an empty world.
pub fn setup_scene(w: &mut World, vp: &Viewport, cfg: &SceneConfig)
    requires
        old(w).wf(),
        vp.wf(),
        cfg.wf(),
        old(w).silos@.len() == 0,
        old(w).buildings@.len() == 0,
        old(w).missiles@.len() == 0,
        old(w).explosions@.len() == 0,
        old(w).powerups@.len() == 0,
        old(w).debris@.len() == 0,
        old(w).next_id + 9 <= u64::MAX,
    ensures
        final(w).wf(),
        initial_scene_spec(*final(w), *vp, *cfg),
        final(w).next_id == old(w).next_id + 9,
{
    proof {
        vstd::arithmetic::div_mod::lemma_div_is_ordered(
            2 * vp.half_width,
            2_000_000_000,
            9,
        );
        vstd::arithmetic::div_mod::lemma_div_pos_is_pos(2 * vp.half_width, 9);
    }
    let step = ((2 * (vp.half_width as u64)) / 9) as i64;
    proof {
        vstd::arithmetic::div_mod::lemma_div_is_ordered(step as int, 2_000_000_000, 2);
        vstd::arithmetic::div_mod::lemma_div_pos_is_pos(step as int, 2);
    }
    let half_step = ((step as u64) / 2) as i64;
    proof {
        vstd::arithmetic::div_mod::lemma_div_is_ordered(
            cfg.silo_height as int,
            2_000_000_000,
            2,
        );
        vstd::arithmetic::div_mod::lemma_div_pos_is_pos(cfg.silo_height as int, 2);
        vstd::arithmetic::div_mod::lemma_div_is_ordered(
            cfg.building_height as int,
            2_000_000_000,
            2,
        );
        vstd::arithmetic::div_mod::lemma_div_pos_is_pos(cfg.building_height as int, 2);
    }
    let silo_y = ((cfg.silo_height as u64) / 2) as i64 + cfg.ground_height - vp.half_height;
    let building_y = ((cfg.building_height as u64) / 2) as i64 + cfg.ground_height
        - vp.half_height;
    let mut slot: usize = 0;
    while slot < 9
        invariant
            slot <= 9,
            w.wf(),
            vp.wf(),
            cfg.wf(),
            step == slot_step_spec(*vp),
            0 <= step <= 222_222_222,
            half_step == slot_step_spec(*vp) / 2,
            0 <= half_step <= step,
            silo_y == silo_y_spec(*vp, *cfg),
            building_y == building_y_spec(*vp, *cfg),
            -2_000_000_000 <= silo_y <= 2_000_000_000,
            -2_000_000_000 <= building_y <= 2_000_000_000,
            w.next_id == old(w).next_id + slot,
            old(w).next_id + 9 <= u64::MAX,
            *w == (World {
                next_id: w.next_id,
                silos: w.silos,
                buildings: w.buildings,
                ..*old(w)
            }),
            w.missiles@.len() == 0,
            w.explosions@.len() == 0,
            w.powerups@.len() == 0,
            w.debris@.len() == 0,
            w.silos@.len() == (if slot <= 0 {
                0int
            } else if slot <= 4 {
                1int
            } else if slot <= 8 {
                2int
            } else {
                3int
            }),
            w.buildings@.len() == (if slot <= 1 {
                0int
            } else if slot <= 4 {
                slot - 1
            } else if slot <= 8 {
                slot - 2
            } else {
                6int
            }),
            forall|k: int|
                0 <= k < w.silos@.len() ==> (#[trigger] w.silos@[k]).location == (if k == 0 {
                    SiloLocation::Left
                } else if k == 1 {
                    SiloLocation::Middle
                } else {
                    SiloLocation::Right
                }) && w.silos@[k].pos == (Vec2 {
                    x: slot_x_spec(*vp, 4 * k) as i64,
                    y: silo_y_spec(*vp, *cfg) as i64,
                }) && w.silos@[k].missiles == SILO_MAX_MISSILES - 1 && w.silos@[k].reload
                    == crate::timer::Timer::spec_reload(),
            forall|k: int|
                0 <= k < w.buildings@.len() ==> (#[trigger] w.buildings@[k]).pos == (Vec2 {
                    x: slot_x_spec(*vp, building_slot_spec(k)) as i64,
                    y: building_y_spec(*vp, *cfg) as i64,
                }),
        decreases 9 - slot,
    {
        proof {
            assert(0 <= step * (slot as int) <= 1_777_777_776) by (nonlinear_arith)
                requires 0 <= step <= 222_222_222, 0 <= slot <= 8;
        }
        let x = step * (slot as i64) + half_step - vp.half_width;
        proof {
            assert(x == slot_x_spec(*vp, slot as int));
        }
        let id = w.peek_id();
        if slot == 0 || slot == 4 || slot == 8 {
            let location = if slot == 0 {
                SiloLocation::Left
            } else if slot == 4 {
                SiloLocation::Middle
            } else {
                SiloLocation::Right
            };
            let s = Silo::new(id, location, Vec2 { x, y: silo_y });
            w.push_silo(s);
        } else {
            w.push_building(Building { id, pos: Vec2 { x, y: building_y } });
        }
        slot += 1;
    }
}

/// The whole simulation: world, singletons, spawners, queues and the
/// state machine.
#[derive(Clone, Debug)]
pub struct Engine {
    pub flow: GameFlow,
    pub world: World,
    pub viewport: Viewport,
    pub config: SceneConfig,
    pub player_status: PlayerStatus,
    pub game_status: GameStatus,
    pub enemy_spawner: EnemyMissileSpawner,
    pub powerup_spawner: PowerupSpawner,
    /// Events produced this tick, consumed at the start of the next.
    pub events: FrameEvents,
}

/// A world holding no simulation entities.
pub open spec fn world_sim_empty(w: World) -> bool {
    &&& w.missiles@.len() == 0
    &&& w.explosions@.len() == 0
    &&& w.buildings@.len() == 0
    &&& w.silos@.len() == 0
    &&& w.powerups@.len() == 0
    &&& w.debris@.len() == 0
}

/// Event queues holding nothing.
pub open spec fn events_empty(ev: FrameEvents) -> bool {
    &&& ev.spawn_missiles@.len() == 0
    &&& ev.spawn_explosions@.len() == 0
    &&& ev.spawn_powerups@.len() == 0
    &&& ev.spawn_debris@.len() == 0
    &&& ev.score@.len() == 0
    &&& ev.blast_bonus@.len() == 0
    &&& ev.speed_bonus@.len() == 0
    &&& ev.ammo@.len() == 0
    &&& ev.sounds@.len() == 0
}


// ---------------------------------------------------------------------
// One play-state tick, as mathematics. The functions below mirror the
// pipeline stage by stage, composing the exact contracts of the passes
// `Engine::tick` calls; `tick` promises that what it leaves behind
// equals this composition. Only the two random spawners escape it:
// their appended requests are pinned by count and shape instead.

/// The defender's modifiers after last tick's bonus events apply; the
/// collision passes run at this blast multiplier.
pub open spec fn tick_status_mid_spec(pre: Engine) -> PlayerStatus {
    handle_events_spec(pre.player_status, pre.events.blast_bonus@, pre.events.speed_bonus@)
}

/// The world after last tick's queued spawn requests apply, in queue
/// order: projectiles, blasts, pickups, debris.
pub open spec fn tick_spawned_spec(pre: Engine) -> WorldModel {
    let w = pre.world.model();
    let n1 = w.next_id + pre.events.spawn_missiles@.len();
    let n2 = n1 + pre.events.spawn_explosions@.len();
    let n3 = n2 + pre.events.spawn_powerups@.len();
    WorldModel {
        next_id: n3 + pre.events.spawn_debris@.len(),
        missiles: w.missiles + spawned_missiles_spec(
            pre.events.spawn_missiles@,
            w.next_id as u64,
            pre.player_status.missile_speed,
        ),
        explosions: w.explosions + spawned_explosions_spec(
            pre.events.spawn_explosions@,
            n1 as u64,
        ),
        powerups: w.powerups + spawned_powerups_spec(pre.events.spawn_powerups@, n2 as u64),
        debris: w.debris + spawned_debris_spec(pre.events.spawn_debris@, n3 as u64),
        ..w
    }
}

/// ... after the tick's fire signals act on the installations.
pub open spec fn tick_fired_spec(pre: Engine, input: TickInput) -> WorldModel {
    let w = tick_spawned_spec(pre);
    WorldModel {
        silos: w.silos.map_values(
            |s: Silo|
                if wants_fire_spec(input.fire_left, input.fire_middle, input.fire_right, s.location) {
                    silo_after_fire_spec(s, input.target)
                } else {
                    s
                },
        ),
        ..w
    }
}

/// The launch requests the fire signals queue for next tick.
pub open spec fn tick_fire_requests_spec(pre: Engine, input: TickInput) -> Seq<SpawnMissile> {
    tick_spawned_spec(pre).silos.filter(
        |s: Silo| wants_fire_spec(input.fire_left, input.fire_middle, input.fire_right, s.location)
            && silo_fires_spec(s, input.target),
    ).map_values(
        |s: Silo| SpawnMissile { position: s.pos, target: input.target, team: Team::Player },
    )
}

/// ... after physics advances every moving entity.
pub open spec fn tick_moved_spec(pre: Engine, input: TickInput, dt: u64) -> WorldModel {
    let w = tick_fired_spec(pre, input);
    WorldModel {
        missiles: w.missiles.map_values(
            |m: Missile| Missile { pos: geom::step_pos_spec(m.pos, m.vel, dt as int), ..m },
        ),
        powerups: w.powerups.map_values(
            |p: Powerup| Powerup { pos: geom::step_pos_spec(p.pos, p.vel, dt as int), ..p },
        ),
        ..w
    }
}

/// ... after defender blasts resolve against hostile projectiles and
/// pickups.
pub open spec fn tick_blasts_resolved_spec(pre: Engine, input: TickInput, dt: u64) -> WorldModel {
    let w = tick_moved_spec(pre, input, dt);
    WorldModel {
        missiles: w.missiles.filter(
            |m: Missile| !(m.team == Team::Enemy && missile_in_blast_spec(m, w.explosions)),
        ),
        powerups: w.powerups.filter(|p: Powerup| !powerup_in_blast_spec(p, w.explosions)),
        ..w
    }
}

/// ... after projectile meets projectile.
pub open spec fn tick_dogfight_resolved_spec(pre: Engine, input: TickInput, dt: u64) -> WorldModel {
    let w = tick_blasts_resolved_spec(pre, input, dt);
    WorldModel {
        missiles: w.missiles.filter(
            |m: Missile| !player_missile_hits_spec(m, w.missiles) && !enemy_missile_hit_spec(
                m,
                w.missiles,
            ),
        ),
        ..w
    }
}

/// ... after hostile projectiles resolve against structures.
pub open spec fn tick_structures_resolved_spec(pre: Engine, input: TickInput, dt: u64) -> WorldModel {
    let w = tick_dogfight_resolved_spec(pre, input, dt);
    WorldModel {
        missiles: w.missiles.filter(
            |m: Missile| !enemy_missile_strikes_spec(m, w.buildings, w.silos),
        ),
        buildings: w.buildings.filter(|b: Building| !building_struck_spec(b, w.missiles)),
        silos: w.silos.filter(|s: Silo| !silo_struck_spec(s, w.missiles)),
        ..w
    }
}

/// ... after projectiles resolve against the ground plane.
pub open spec fn tick_ground_resolved_spec(pre: Engine, input: TickInput, dt: u64) -> WorldModel {
    let w = tick_structures_resolved_spec(pre, input, dt);
    WorldModel { missiles: w.missiles.filter(|m: Missile| !missile_grounded_spec(m)), ..w }
}

/// ... after defender projectiles resolve against pickups.
pub open spec fn tick_pickups_resolved_spec(pre: Engine, input: TickInput, dt: u64) -> WorldModel {
    let w = tick_ground_resolved_spec(pre, input, dt);
    WorldModel {
        missiles: w.missiles.filter(|m: Missile| !player_missile_takes_spec(m, w.powerups)),
        powerups: w.powerups.filter(|p: Powerup| !powerup_taken_spec(p, w.missiles)),
        ..w
    }
}

/// ... after projectiles that reached their target detonate.
pub open spec fn tick_targets_resolved_spec(pre: Engine, input: TickInput, dt: u64) -> WorldModel {
    let w = tick_pickups_resolved_spec(pre, input, dt);
    WorldModel { missiles: w.missiles.filter(|m: Missile| !target_reached_spec(m)), ..w }
}

/// ... after pickups past the playfield edge despawn.
pub open spec fn tick_onscreen_spec(pre: Engine, input: TickInput, dt: u64) -> WorldModel {
    let w = tick_targets_resolved_spec(pre, input, dt);
    WorldModel {
        powerups: w.powerups.filter(|p: Powerup| !powerup_offscreen_spec(p, pre.viewport)),
        ..w
    }
}

/// ... after blast volumes shrink and those below the cutoff despawn.
pub open spec fn tick_decayed_spec(pre: Engine, input: TickInput, dt: u64) -> WorldModel {
    let w = tick_onscreen_spec(pre, input, dt);
    WorldModel {
        explosions: w.explosions.map_values(|e: Explosion| decay_explosion_spec(e, dt)).filter(
            |e: Explosion| explosion_alive_spec(e),
        ),
        ..w
    }
}

/// The world the simulation leaves at the end of the tick — reload
/// countdowns advanced last — before game over is considered.
pub open spec fn tick_sim_result_spec(pre: Engine, input: TickInput, dt: u64) -> WorldModel {
    let w = tick_decayed_spec(pre, input, dt);
    WorldModel { silos: w.silos.map_values(|s: Silo| silo_reload_spec(s, dt)), ..w }
}

/// The blast requests the tick queues for next tick, in pass order:
/// direct hits, structure strikes, ground impacts, pickup pickups,
/// targets reached.
pub open spec fn tick_blast_requests_spec(pre: Engine, input: TickInput, dt: u64) -> Seq<
    SpawnExplosion,
> {
    let player_mult = tick_status_mid_spec(pre).explosion_size;
    let w_dog = tick_blasts_resolved_spec(pre, input, dt);
    let w_str = tick_dogfight_resolved_spec(pre, input, dt);
    let w_gnd = tick_structures_resolved_spec(pre, input, dt);
    let w_pik = tick_ground_resolved_spec(pre, input, dt);
    let w_tgt = tick_pickups_resolved_spec(pre, input, dt);
    w_dog.missiles.filter(|m: Missile| player_missile_hits_spec(m, w_dog.missiles)).map_values(
        |m: Missile| blast_of_missile_spec(m, player_mult),
    ) + w_str.missiles.filter(
        |m: Missile| enemy_missile_strikes_spec(m, w_str.buildings, w_str.silos),
    ).map_values(
        |m: Missile| SpawnExplosion {
            position: m.pos,
            team: Team::Enemy,
            size_milli: BASE_EXPLOSION_MULT,
        },
    ) + w_gnd.missiles.filter(|m: Missile| missile_grounded_spec(m)).map_values(
        |m: Missile| blast_of_missile_spec(m, player_mult),
    ) + w_pik.missiles.filter(|m: Missile| player_missile_takes_spec(m, w_pik.powerups)).map_values(
        |m: Missile| blast_of_missile_spec(m, player_mult),
    ) + w_tgt.missiles.filter(|m: Missile| target_reached_spec(m)).map_values(
        |m: Missile| blast_of_missile_spec(m, player_mult),
    )
}

/// The debris requests the tick queues: one per struck structure.
pub open spec fn tick_debris_requests_spec(pre: Engine, input: TickInput, dt: u64) -> Seq<
    crate::debris::SpawnDebris,
> {
    let w = tick_dogfight_resolved_spec(pre, input, dt);
    w.buildings.filter(|b: Building| building_struck_spec(b, w.missiles)).map_values(
        |b: Building| crate::debris::SpawnDebris {
            x_position: b.pos.x,
            debris_type: crate::debris::DebrisType::Building,
        },
    ) + w.silos.filter(|s: Silo| silo_struck_spec(s, w.missiles)).map_values(
        |s: Silo| crate::debris::SpawnDebris {
            x_position: s.pos.x,
            debris_type: crate::debris::DebrisType::Silo,
        },
    )
}

/// The score deltas the tick queues, in pass order.
pub open spec fn tick_score_events_spec(pre: Engine, input: TickInput, dt: u64) -> Seq<UpdateScore> {
    let w_ec = tick_moved_spec(pre, input, dt);
    let w_mc = tick_blasts_resolved_spec(pre, input, dt);
    let w_pc = tick_ground_resolved_spec(pre, input, dt);
    w_ec.missiles.filter(
        |m: Missile| m.team == Team::Enemy && missile_in_blast_spec(m, w_ec.explosions),
    ).map_values(|m: Missile| UpdateScore(MISSILE_VALUE)) + w_ec.powerups.filter(
        |p: Powerup| powerup_in_blast_spec(p, w_ec.explosions) && p.powerup_type
            == PowerupType::Score,
    ).map_values(|p: Powerup| UpdateScore(SCORE_POWERUP_VALUE)) + w_mc.missiles.filter(
        |m: Missile| enemy_missile_hit_spec(m, w_mc.missiles),
    ).map_values(|m: Missile| UpdateScore(MISSILE_HIT_VALUE)) + w_pc.powerups.filter(
        |p: Powerup| powerup_taken_spec(p, w_pc.missiles) && p.powerup_type == PowerupType::Score,
    ).map_values(|p: Powerup| UpdateScore(SCORE_POWERUP_VALUE))
}

/// The blast-size bonus events the tick queues.
pub open spec fn tick_blast_bonus_events_spec(pre: Engine, input: TickInput, dt: u64) -> Seq<
    SetPlayerExplosionSize,
> {
    let w_ec = tick_moved_spec(pre, input, dt);
    let w_pc = tick_ground_resolved_spec(pre, input, dt);
    w_ec.powerups.filter(
        |p: Powerup| powerup_in_blast_spec(p, w_ec.explosions) && p.powerup_type
            == PowerupType::ExplosionSize,
    ).map_values(|p: Powerup| SetPlayerExplosionSize(BONUS_EXPLOSION_MULT)) + w_pc.powerups.filter(
        |p: Powerup| powerup_taken_spec(p, w_pc.missiles) && p.powerup_type
            == PowerupType::ExplosionSize,
    ).map_values(|p: Powerup| SetPlayerExplosionSize(BONUS_EXPLOSION_MULT))
}

/// The speed bonus events the tick queues.
pub open spec fn tick_speed_bonus_events_spec(pre: Engine, input: TickInput, dt: u64) -> Seq<
    SetPlayerMissileSpeed,
> {
    let w_ec = tick_moved_spec(pre, input, dt);
    let w_pc = tick_ground_resolved_spec(pre, input, dt);
    w_ec.powerups.filter(
        |p: Powerup| powerup_in_blast_spec(p, w_ec.explosions) && p.powerup_type
            == PowerupType::MissileSpeed,
    ).map_values(|p: Powerup| SetPlayerMissileSpeed(BONUS_MISSILE_SPEED)) + w_pc.powerups.filter(
        |p: Powerup| powerup_taken_spec(p, w_pc.missiles) && p.powerup_type
            == PowerupType::MissileSpeed,
    ).map_values(|p: Powerup| SetPlayerMissileSpeed(BONUS_MISSILE_SPEED))
}

/// The sound cues the tick queues: one per collected pickup.
pub open spec fn tick_sound_events_spec(pre: Engine, input: TickInput, dt: u64) -> Seq<PlayAudio> {
    let w_ec = tick_moved_spec(pre, input, dt);
    let w_pc = tick_ground_resolved_spec(pre, input, dt);
    w_ec.powerups.filter(|p: Powerup| powerup_in_blast_spec(p, w_ec.explosions)).map_values(
        |p: Powerup| PlayAudio { cue: SoundCue::Pickup },
    ) + w_pc.powerups.filter(|p: Powerup| powerup_taken_spec(p, w_pc.missiles)).map_values(
        |p: Powerup| PlayAudio { cue: SoundCue::Pickup },
    )
}

/// The count-changed events the tick queues: one per completed
/// reload.
pub open spec fn tick_ammo_events_spec(pre: Engine, input: TickInput, dt: u64) -> Seq<
    SiloMissileCountUpdate,
> {
    let w = tick_decayed_spec(pre, input, dt);
    w.silos.filter(|s: Silo| silo_reloaded_spec(s, dt)).map_values(
        |s: Silo| SiloMissileCountUpdate { location: s.location, count: (s.missiles + 1) as u8 },
    )
}

impl Engine {
    /// The state currently in charge.
    pub open spec fn current_spec(self) -> GameState {
        self.flow.current_spec()
    }

    /// Whether a play session exists, running or frozen under pause.
    pub open spec fn in_play(self) -> bool {
        self.current_spec() == GameState::Game || self.current_spec() == GameState::Paused
    }

    pub open spec fn wf(self) -> bool {
        &&& self.flow.wf()
        &&& self.world.wf()
        &&& self.viewport.wf()
        &&& self.config.wf()
        &&& self.player_status.wf()
        &&& self.enemy_spawner.wf()
        &&& self.powerup_spawner.wf()
        &&& self.events.wf()
        &&& (!self.in_play() ==> world_sim_empty(self.world) && events_empty(self.events)
            && self.player_status.at_baseline())
    }

    /// How many entities the queued spawn events will create next
    /// tick; the handle counter must have room for them.
    pub open spec fn pending_spawns(self) -> nat {
        self.events.spawn_missiles@.len() + self.events.spawn_explosions@.len()
            + self.events.spawn_powerups@.len() + self.events.spawn_debris@.len()
    }

    /// A fresh engine at the main menu, with nothing simulated yet.
    pub fn new(viewport: Viewport, config: SceneConfig) -> (e: Engine)
        requires
            viewport.wf(),
            config.wf(),
        ensures
            e.wf(),
            e.current_spec() == GameState::MainMenu,
            e.world.next_id == 0,
    {
        Engine {
            flow: GameFlow::new(),
            world: World::new(),
            viewport,
            config,
            player_status: PlayerStatus::new(),
            game_status: GameStatus::new(),
            enemy_spawner: EnemyMissileSpawner::new(),
            powerup_spawner: PowerupSpawner::new(),
            events: FrameEvents::new(),
        }
    }

    /// Play is chosen at the main menu: the scene is laid out — three
    /// installations, six buildings — the score is zeroed and the
    /// simulation begins.
    pub fn start_game(&mut self)
        requires
            old(self).wf(),
            old(self).current_spec() == GameState::MainMenu,
            old(self).world.next_id + 9 <= u64::MAX,
        ensures
            final(self).wf(),
            final(self).current_spec() == GameState::Game,
            initial_scene_spec(final(self).world, old(self).viewport, old(self).config),
            final(self).game_status.score == 0,
            final(self).world.next_id == old(self).world.next_id + 9,
            *final(self) == (Engine {
                flow: final(self).flow,
                world: final(self).world,
                game_status: final(self).game_status,
                ..*old(self)
            }),
            events_empty(final(self).events),
    {
        setup_scene(&mut self.world, &self.viewport, &self.config);
        self.game_status.reset();
        self.flow.reset_to(GameState::Game);
    }

    /// The options menu is opened from the main menu.
    pub fn open_options(&mut self)
        requires
            old(self).wf(),
            old(self).current_spec() == GameState::MainMenu,
        ensures
            final(self).wf(),
            final(self).current_spec() == GameState::OptionsMenu,
            *final(self) == (Engine { flow: final(self).flow, ..*old(self) }),
    {
        self.flow.reset_to(GameState::OptionsMenu);
    }

    /// The options menu closes back to the main menu.
    pub fn close_options(&mut self)
        requires
            old(self).wf(),
            old(self).current_spec() == GameState::OptionsMenu,
        ensures
            final(self).wf(),
            final(self).current_spec() == GameState::MainMenu,
            *final(self) == (Engine { flow: final(self).flow, ..*old(self) }),
    {
        self.flow.reset_to(GameState::MainMenu);
    }

    /// Pause stacks on top of play: tick advancement freezes with
    /// every entity and timer intact, so resuming is exact.
    pub fn pause(&mut self)
        requires
            old(self).wf(),
            old(self).current_spec() == GameState::Game,
        ensures
            final(self).wf(),
            final(self).current_spec() == GameState::Paused,
            *final(self) == (Engine { flow: final(self).flow, ..*old(self) }),
    {
        proof {
            assert(self.flow.stack@ == seq![GameState::Game]);
        }
        self.flow.push_state(GameState::Paused);
        proof {
            assert(self.flow.stack@ =~= seq![GameState::Game, GameState::Paused]);
        }
    }

    /// Resuming pops the pause state, returning to play exactly where
    /// it froze.
    pub fn resume(&mut self)
        requires
            old(self).wf(),
            old(self).current_spec() == GameState::Paused,
        ensures
            final(self).wf(),
            final(self).current_spec() == GameState::Game,
            *final(self) == (Engine { flow: final(self).flow, ..*old(self) }),
    {
        proof {
            assert(self.flow.stack@ == seq![GameState::Game, GameState::Paused]);
        }
        self.flow.pop_state();
        proof {
            assert(self.flow.stack@ =~= seq![GameState::Game]);
        }
    }

    /// Abandoning a paused session exits play: every simulation
    /// entity is torn down, the defender's modifiers hard-reset, and
    /// the main menu takes over.
    pub fn abandon(&mut self)
        requires
            old(self).wf(),
            old(self).current_spec() == GameState::Paused,
        ensures
            final(self).wf(),
            final(self).current_spec() == GameState::MainMenu,
            world_sim_empty(final(self).world),
            final(self).player_status.at_baseline(),
    {
        self.exit_play();
        self.flow.reset_to(GameState::MainMenu);
    }

    /// The game-over screen is acknowledged, returning to the main
    /// menu.
    pub fn acknowledge_game_over(&mut self)
        requires
            old(self).wf(),
            old(self).current_spec() == GameState::GameOver,
        ensures
            final(self).wf(),
            final(self).current_spec() == GameState::MainMenu,
            *final(self) == (Engine { flow: final(self).flow, ..*old(self) }),
    {
        self.flow.reset_to(GameState::MainMenu);
    }

    /// Leaving play, by abandoning or by losing: despawns every
    /// simulation entity unconditionally, hard-resets the defender's
    /// modifiers and drops any queued events.
    fn exit_play(&mut self)
        requires
            old(self).world.wf(),
        ensures
            *final(self) == (Engine {
                world: final(self).world,
                player_status: final(self).player_status,
                events: final(self).events,
                ..*old(self)
            }),
            final(self).world.wf(),
            world_sim_empty(final(self).world),
            events_empty(final(self).events),
            final(self).events.wf(),
            final(self).player_status == PlayerStatus::spec_baseline(),
            final(self).player_status.at_baseline(),
            final(self).player_status.wf(),
            final(self).world.next_id == old(self).world.next_id,
    {
        self.world.clear();
        self.player_status.reset();
        self.events = FrameEvents::new();
    }

    /// One simulation step of `dt` milliseconds. Outside play this is
    /// a no-op. In play, the fixed pipeline runs: last tick's queued
    /// events apply, fire signals act, physics integrates, collisions
    /// resolve, timers advance — and if no structure remains standing
    /// afterwards, play ends in game over, tearing the scene down.
    /// The events consumed this tick are handed back for the
    /// presentation and audio collaborators.
    pub fn tick(&mut self, dt: u64, input: &TickInput) -> (out: FrameEvents)
        requires
            old(self).wf(),
            dt <= DT_LIMIT,
            input.target.in_pos_bounds(),
            old(self).world.next_id + old(self).pending_spawns() <= u64::MAX,
        ensures
            final(self).wf(),
            final(self).viewport == old(self).viewport,
            final(self).config == old(self).config,
            old(self).current_spec() != GameState::Game ==> *final(self) == *old(self)
                && events_empty(out),
            old(self).current_spec() == GameState::Game ==> {
                &&& out == old(self).events
                &&& final(self).game_status.score == crate::game_status::fold_scores_spec(
                    old(self).game_status.score,
                    old(self).events.score@,
                )
                &&& final(self).enemy_spawner == (EnemyMissileSpawner {
                    timer: timer_tick_spec(old(self).enemy_spawner.timer, dt),
                    enemy_event_timer: timer_tick_spec(
                        old(self).enemy_spawner.enemy_event_timer,
                        dt,
                    ),
                })
                &&& final(self).powerup_spawner == (PowerupSpawner {
                    timer: timer_tick_spec(old(self).powerup_spawner.timer, dt),
                })
                &&& ({
                    let sim = tick_sim_result_spec(*old(self), *input, dt);
                    if sim.buildings.len() == 0 && sim.silos.len() == 0 {
                        &&& final(self).current_spec() == GameState::GameOver
                        &&& world_sim_empty(final(self).world)
                        &&& events_empty(final(self).events)
                        &&& final(self).player_status == PlayerStatus::spec_baseline()
                        &&& final(self).world.next_id == sim.next_id
                    } else {
                        &&& final(self).current_spec() == GameState::Game
                        &&& final(self).world.model() == sim
                        &&& final(self).player_status == run_timers_spec(
                            tick_status_mid_spec(*old(self)),
                            dt,
                        )
                        &&& final(self).events.spawn_explosions@ == tick_blast_requests_spec(
                            *old(self),
                            *input,
                            dt,
                        )
                        &&& final(self).events.spawn_debris@ == tick_debris_requests_spec(
                            *old(self),
                            *input,
                            dt,
                        )
                        &&& final(self).events.score@ == tick_score_events_spec(
                            *old(self),
                            *input,
                            dt,
                        )
                        &&& final(self).events.blast_bonus@ == tick_blast_bonus_events_spec(
                            *old(self),
                            *input,
                            dt,
                        )
                        &&& final(self).events.speed_bonus@ == tick_speed_bonus_events_spec(
                            *old(self),
                            *input,
                            dt,
                        )
                        &&& final(self).events.sounds@ == tick_sound_events_spec(
                            *old(self),
                            *input,
                            dt,
                        )
                        &&& final(self).events.ammo@ == tick_ammo_events_spec(
                            *old(self),
                            *input,
                            dt,
                        )
                        &&& final(self).events.spawn_missiles@.take(
                            tick_fire_requests_spec(*old(self), *input).len() as int,
                        ) == tick_fire_requests_spec(*old(self), *input)
                        &&& final(self).events.spawn_missiles@.len() == tick_fire_requests_spec(
                            *old(self),
                            *input,
                        ).len() + (if timer_tick_spec(
                            old(self).enemy_spawner.timer,
                            dt,
                        ).just_finished {
                            1int
                        } else {
                            0int
                        }) + (if timer_tick_spec(
                            old(self).enemy_spawner.enemy_event_timer,
                            dt,
                        ).just_finished {
                            ENEMY_VOLLEY_COUNT as int
                        } else {
                            0int
                        })
                        &&& forall|i: int|
                            tick_fire_requests_spec(*old(self), *input).len() <= i
                                < final(self).events.spawn_missiles@.len()
                                ==> enemy_spawn_shape_spec(
                                #[trigger] final(self).events.spawn_missiles@[i],
                                old(self).viewport,
                            )
                        &&& final(self).events.spawn_powerups@.len() == (if timer_tick_spec(
                            old(self).powerup_spawner.timer,
                            dt,
                        ).just_finished {
                            1int
                        } else {
                            0int
                        })
                        &&& forall|i: int|
                            0 <= i < final(self).events.spawn_powerups@.len()
                                ==> powerup_spawn_shape_spec(
                                #[trigger] final(self).events.spawn_powerups@[i],
                                old(self).viewport,
                            )
                    }
                })
            },
    {
        let ghost pre = *self;
        let current = self.flow.current();
        if !matches!(current, GameState::Game) {
            return FrameEvents::new();
        }
        let mut inbox = FrameEvents::new();
        core::mem::swap(&mut inbox, &mut self.events);
        proof {
            assert(inbox == pre.events);
        }
        spawn_missiles(&mut self.world, &inbox.spawn_missiles, self.player_status.missile_speed);
        spawn_explosions(&mut self.world, &inbox.spawn_explosions);
        spawn_powerups(&mut self.world, &inbox.spawn_powerups);
        spawn_debris(&mut self.world, &inbox.spawn_debris);
        self.game_status.apply_score_events(&inbox.score);
        self.player_status.handle_events(&inbox.blast_bonus, &inbox.speed_bonus);
        proof {
            assert(self.world.model() =~= tick_spawned_spec(pre));
            assert(self.player_status == tick_status_mid_spec(pre));
        }
        fire_silos(
            &mut self.world,
            input.fire_left,
            input.fire_middle,
            input.fire_right,
            input.target,
            &mut self.events.spawn_missiles,
        );
        proof {
            assert(self.world.model() =~= tick_fired_spec(pre, *input));
            assert(self.events.spawn_missiles@ =~= tick_fire_requests_spec(pre, *input));
        }
        self.world.apply_velocity(dt);
        proof {
            assert(self.world.model() =~= tick_moved_spec(pre, *input, dt));
        }
        explosion_collisions(&mut self.world, &mut self.events);
        proof {
            assert(self.world.model() =~= tick_blasts_resolved_spec(pre, *input, dt));
        }
        missile_collisions(&mut self.world, &mut self.events, self.player_status.explosion_size);
        proof {
            assert(self.world.model() =~= tick_dogfight_resolved_spec(pre, *input, dt));
        }
        enemy_missile_collisions(&mut self.world, &mut self.events);
        proof {
            assert(self.world.model() =~= tick_structures_resolved_spec(pre, *input, dt));
        }
        missile_ground_collisions(
            &mut self.world,
            &mut self.events,
            self.player_status.explosion_size,
        );
        proof {
            assert(self.world.model() =~= tick_ground_resolved_spec(pre, *input, dt));
        }
        powerup_collisions(&mut self.world, &mut self.events, self.player_status.explosion_size);
        proof {
            assert(self.world.model() =~= tick_pickups_resolved_spec(pre, *input, dt));
        }
        check_target_reached(&mut self.world, &mut self.events, self.player_status.explosion_size);
        proof {
            assert(self.world.model() =~= tick_targets_resolved_spec(pre, *input, dt));
            assert(self.events.spawn_explosions@ =~= tick_blast_requests_spec(pre, *input, dt));
            assert(self.events.spawn_debris@ =~= tick_debris_requests_spec(pre, *input, dt));
            assert(self.events.score@ =~= tick_score_events_spec(pre, *input, dt));
            assert(self.events.blast_bonus@ =~= tick_blast_bonus_events_spec(pre, *input, dt));
            assert(self.events.speed_bonus@ =~= tick_speed_bonus_events_spec(pre, *input, dt));
            assert(self.events.sounds@ =~= tick_sound_events_spec(pre, *input, dt));
        }
        check_offscreen_powerups(&mut self.world, &self.viewport);
        proof {
            assert(self.world.model() =~= tick_onscreen_spec(pre, *input, dt));
        }
        update_explosions(&mut self.world, dt);
        proof {
            assert(self.world.model() =~= tick_decayed_spec(pre, *input, dt));
        }
        run_reload_timers(&mut self.world, dt, &mut self.events.ammo);
        proof {
            assert(self.world.model() =~= tick_sim_result_spec(pre, *input, dt));
            assert(self.events.ammo@ =~= tick_ammo_events_spec(pre, *input, dt));
        }
        self.player_status.run_timers(dt);
        update_timer(&mut self.enemy_spawner, dt, &self.viewport, &mut self.events);
        run_powerup_spawner(&mut self.powerup_spawner, dt, &self.viewport, &mut self.events);
        proof {
            assert(self.events.spawn_missiles@.take(
                tick_fire_requests_spec(pre, *input).len() as int,
            ) == tick_fire_requests_spec(pre, *input));
        }
        if self.world.buildings.len() == 0 && self.world.silos.len() == 0 {
            self.exit_play();
            self.flow.reset_to(GameState::GameOver);
        }
        inbox
    }
}

} // verus!
