//! Projectiles and their lifecycle.
//!
//! A projectile is spawned from an origin toward a retained target,
//! flies at a fixed velocity, and resolves exactly once: on reaching
//! its target, on a collision, or on striking the ground. Every
//! resolution converges on the same despawn-plus-blast contract.

use vstd::prelude::*;

use crate::consts::{ENEMY_MISSILE_SPEED, MAX_EXPLOSION_MULT, MISSILE_RADIUS, TARGET_EPSILON_SQ};
use crate::events::{FrameEvents, SpawnExplosion};
use crate::geom;
use crate::geom::Vec2;
use crate::team::Team;
use crate::world::World;

verus! {

/// A projectile in flight.
#[derive(Clone, Copy, PartialEq, Eq, Structural, Debug)]
pub struct Missile {
    /// The entity handle.
    pub id: u64,
    /// Current position (mu).
    pub pos: Vec2,
    /// Velocity (mu/ms).
    pub vel: Vec2,
    /// The point the projectile detonates at if nothing stops it.
    pub target: Vec2,
    /// The side it fights for.
    pub team: Team,
    /// Collision radius (mu).
    pub radius: i64,
}

impl Missile {
    pub open spec fn wf(self) -> bool {
        &&& self.pos.in_pos_bounds()
        &&& self.vel.in_vel_bounds()
        &&& self.target.in_pos_bounds()
        &&& geom::valid_radius(self.radius)
    }
}

/// A request to launch a projectile next tick.
#[derive(Clone, Copy, PartialEq, Eq, Structural, Debug)]
pub struct SpawnMissile {
    /// Launch point (mu).
    pub position: Vec2,
    /// The point to fly toward and detonate at (mu).
    pub target: Vec2,
    /// The side launching it.
    pub team: Team,
}

impl SpawnMissile {
    pub open spec fn wf(self) -> bool {
        self.position.in_pos_bounds() && self.target.in_pos_bounds()
    }
}

/// The speed a newly launched projectile flies at: hostile projectiles
/// at their fixed speed, defender projectiles at the defender's
/// current (possibly bonus) speed.
pub open spec fn launch_speed_spec(team: Team, player_speed: i64) -> int {
    match team {
        Team::Player => player_speed as int,
        Team::Enemy => ENEMY_MISSILE_SPEED as int,
    }
}

/// The projectile a spawn request turns into, given the id it will
/// carry and the defender's current speed. `None` when origin and
/// target coincide, where no launch direction exists and the request
/// is dropped.
pub open spec fn missile_of_event_spec(e: SpawnMissile, id: u64, player_speed: i64) -> Option<
    Missile,
> {
    let d = geom::sqrt_floor(geom::dist_sq_spec(e.position, e.target) as nat) as int;
    let speed = launch_speed_spec(e.team, player_speed);
    if e.position == e.target {
        None
    } else {
        Some(
            Missile {
                id,
                pos: e.position,
                vel: Vec2 {
                    x: geom::scaled_toward(e.target.x - e.position.x, speed, d) as i64,
                    y: geom::scaled_toward(e.target.y - e.position.y, speed, d) as i64,
                },
                target: e.target,
                team: e.team,
                radius: MISSILE_RADIUS,
            },
        )
    }
}

/// Applies queued launch requests: each request becomes one projectile
/// oriented from its origin toward its target, flying at its team's
/// speed. A request whose origin equals its target is dropped.
pub fn spawn_missiles(w: &mut World, evs: &Vec<SpawnMissile>, player_speed: i64)
    requires
        old(w).wf(),
        forall|i: int| 0 <= i < evs@.len() ==> #[trigger] evs@[i].wf(),
        0 < player_speed <= crate::consts::VEL_LIMIT,
        old(w).next_id + evs@.len() <= u64::MAX,
    ensures
        final(w).wf(),
        *final(w) == (World {
            next_id: final(w).next_id,
            missiles: final(w).missiles,
            ..*old(w)
        }),
        final(w).missiles@ == old(w).missiles@ + spawned_missiles_spec(
            evs@,
            old(w).next_id,
            player_speed,
        ),
        final(w).next_id == old(w).next_id + evs@.len(),
{
    let ghost orig = *w;
    let mut i: usize = 0;
    while i < evs.len()
        invariant
            i <= evs@.len(),
            w.wf(),
            orig.wf(),
            forall|k: int| 0 <= k < evs@.len() ==> #[trigger] evs@[k].wf(),
            0 < player_speed <= crate::consts::VEL_LIMIT,
            orig.next_id + evs@.len() <= u64::MAX,
            *w == (World { next_id: w.next_id, missiles: w.missiles, ..orig }),
            w.missiles@ == orig.missiles@ + spawned_missiles_spec(
                evs@.take(i as int),
                orig.next_id,
                player_speed,
            ),
            w.next_id == orig.next_id + i,
        decreases evs@.len() - i,
    {
        let e = evs[i];
        proof {
            assert(e.wf());
            assert(evs@.take(i as int + 1) =~= evs@.take(i as int).push(evs@[i as int]));
            lemma_spawned_missiles_push(evs@.take(i as int), e, orig.next_id, player_speed);
        }
        let speed = match e.team {
            Team::Player => player_speed,
            Team::Enemy => ENEMY_MISSILE_SPEED,
        };
        match geom::launch_velocity(e.position, e.target, speed) {
            Some(vel) => {
                let id = w.peek_id();
                let m = Missile {
                    id,
                    pos: e.position,
                    vel,
                    target: e.target,
                    team: e.team,
                    radius: MISSILE_RADIUS,
                };
                w.push_missile(m);
            },
            None => {
                proof {
                    w.lemma_bump_next_id_wf();
                }
                w.next_id = w.next_id + 1;
            },
        }
        i += 1;
    }
    proof {
        assert(evs@.take(evs@.len() as int) =~= evs@);
    }
}

/// The projectiles a queue of launch requests produces, with ids
/// assigned in order starting at `base_id`; requests without a launch
/// direction produce nothing but still consume an id.
pub open spec fn spawned_missiles_spec(evs: Seq<SpawnMissile>, base_id: u64, player_speed: i64) -> Seq<
    Missile,
>
    decreases evs.len(),
{
    if evs.len() == 0 {
        Seq::empty()
    } else {
        let rest = spawned_missiles_spec(evs.drop_last(), base_id, player_speed);
        match missile_of_event_spec(
            evs.last(),
            (base_id + evs.len() - 1) as u64,
            player_speed,
        ) {
            Some(m) => rest.push(m),
            None => rest,
        }
    }
}

proof fn lemma_spawned_missiles_push(evs: Seq<SpawnMissile>, e: SpawnMissile, base_id: u64, player_speed: i64)
    ensures
        spawned_missiles_spec(evs.push(e), base_id, player_speed) == (match missile_of_event_spec(
            e,
            (base_id + evs.len()) as u64,
            player_speed,
        ) {
            Some(m) => spawned_missiles_spec(evs, base_id, player_speed).push(m),
            None => spawned_missiles_spec(evs, base_id, player_speed),
        }),
{
    assert(evs.push(e).drop_last() =~= evs);
    assert(evs.push(e).last() == e);
}

/// Whether a projectile has come within the detonation distance of its
/// retained target.
pub open spec fn target_reached_spec(m: Missile) -> bool {
    geom::dist_sq_spec(m.pos, m.target) < TARGET_EPSILON_SQ
}

/// The blast a resolving projectile leaves behind: at its current
/// position, for its team, at the defender's current blast multiplier
/// for defender projectiles and neutral size for hostile ones.
pub open spec fn blast_of_missile_spec(m: Missile, player_mult: u32) -> SpawnExplosion {
    SpawnExplosion {
        position: m.pos,
        team: m.team,
        size_milli: match m.team {
            Team::Player => player_mult,
            Team::Enemy => crate::consts::BASE_EXPLOSION_MULT,
        },
    }
}

/// Retires every projectile that has reached its target: it despawns
/// and a blast is requested at the projectile's current position, not
/// at the target point.
pub fn check_target_reached(w: &mut World, ev: &mut FrameEvents, player_mult: u32)
    requires
        old(w).wf(),
        old(ev).wf(),
        0 < player_mult <= MAX_EXPLOSION_MULT,
    ensures
        final(w).wf(),
        final(ev).wf(),
        *final(w) == (World { missiles: final(w).missiles, ..*old(w) }),
        final(w).missiles@ == old(w).missiles@.filter(|m: Missile| !target_reached_spec(m)),
        *final(ev) == (FrameEvents { spawn_explosions: final(ev).spawn_explosions, ..*old(ev) }),
        final(ev).spawn_explosions@ == old(ev).spawn_explosions@ + old(w).missiles@.filter(
            |m: Missile| target_reached_spec(m),
        ).map_values(|m: Missile| blast_of_missile_spec(m, player_mult)),
{
    let ghost orig = *w;
    let ghost orig_ev = *ev;
    let mut kept: Vec<Missile> = Vec::new();
    let mut i: usize = 0;
    while i < w.missiles.len()
        invariant
            i <= w.missiles@.len(),
            *w == orig,
            w.wf(),
            ev.wf(),
            orig_ev.wf(),
            0 < player_mult <= MAX_EXPLOSION_MULT,
            kept@ == w.missiles@.take(i as int).filter(|m: Missile| !target_reached_spec(m)),
            *ev == (FrameEvents { spawn_explosions: ev.spawn_explosions, ..orig_ev }),
            ev.spawn_explosions@ == orig_ev.spawn_explosions@ + w.missiles@.take(i as int).filter(
                |m: Missile| target_reached_spec(m),
            ).map_values(|m: Missile| blast_of_missile_spec(m, player_mult)),
        decreases w.missiles@.len() - i,
    {
        let m = w.missiles[i];
        proof {
            broadcast use vstd::prelude::Seq::lemma_filter_push;

            assert(w.missiles@.take(i as int + 1) =~= w.missiles@.take(i as int).push(
                w.missiles@[i as int],
            ));
        }
        if geom::dist_sq(m.pos, m.target) < TARGET_EPSILON_SQ {
            ev.spawn_explosions.push(
                SpawnExplosion {
                    position: m.pos,
                    team: m.team,
                    size_milli: match m.team {
                        Team::Player => player_mult,
                        Team::Enemy => crate::consts::BASE_EXPLOSION_MULT,
                    },
                },
            );
            proof {
                assert(ev.spawn_explosions@ =~= orig_ev.spawn_explosions@ + w.missiles@.take(
                    i as int + 1,
                ).filter(|m: Missile| target_reached_spec(m)).map_values(
                    |m: Missile| blast_of_missile_spec(m, player_mult),
                ));
            }
        } else {
            kept.push(m);
        }
        i += 1;
    }
    proof {
        assert(w.missiles@.take(w.missiles@.len() as int) =~= w.missiles@);
    }
    w.missiles = kept;
    proof {
        crate::world::lemma_missiles_wf_filter(
            orig.missiles@,
            orig.next_id,
            |m: Missile| !target_reached_spec(m),
        );
    }
}

} // verus!
