//! Drifting pickups.
//!
//! A pickup enters just outside one screen edge, drifts horizontally
//! inward, and either collides with something of the defender's — a
//! blast or a projectile — granting its effect, or leaves past the
//! opposite edge and despawns silently.

use vstd::prelude::*;

use crate::consts::{DT_LIMIT, POWERUP_DRIFT_SPEED, POWERUP_RADIUS, POWERUP_SPAWN_TIME};
use crate::events::FrameEvents;
use crate::geom;
use crate::geom::{Vec2, Viewport};
use crate::rng::rand_in_range;
use crate::timer::{timer_tick_spec, Timer};
use crate::world::World;

verus! {

/// What collecting a pickup grants.
#[derive(Clone, Copy, PartialEq, Eq, Structural, Debug)]
pub enum PowerupType {
    /// A one-off score bonus.
    Score,
    /// A temporary blast-size multiplier.
    ExplosionSize,
    /// A temporary projectile-speed bonus.
    MissileSpeed,
}

/// A request to float in a pickup next tick.
#[derive(Clone, Copy, PartialEq, Eq, Structural, Debug)]
pub struct SpawnPowerup {
    /// What the pickup grants.
    pub powerup_type: PowerupType,
    /// Where it enters (mu).
    pub position: Vec2,
    /// Its drift velocity (mu/ms).
    pub velocity: Vec2,
}

impl SpawnPowerup {
    pub open spec fn wf(self) -> bool {
        self.position.in_pos_bounds() && self.velocity.in_vel_bounds()
    }
}

/// A pickup adrift on the playfield.
#[derive(Clone, Copy, PartialEq, Eq, Structural, Debug)]
pub struct Powerup {
    /// The entity handle.
    pub id: u64,
    /// What it grants.
    pub powerup_type: PowerupType,
    /// Current position (mu).
    pub pos: Vec2,
    /// Drift velocity (mu/ms).
    pub vel: Vec2,
    /// Collision radius (mu).
    pub radius: i64,
}

impl Powerup {
    pub open spec fn wf(self) -> bool {
        &&& self.pos.in_pos_bounds()
        &&& self.vel.in_vel_bounds()
        &&& geom::valid_radius(self.radius)
    }
}

/// The pickup a spawn request turns into, given the id it will carry.
pub open spec fn powerup_of_event_spec(e: SpawnPowerup, id: u64) -> Powerup {
    Powerup {
        id,
        powerup_type: e.powerup_type,
        pos: e.position,
        vel: e.velocity,
        radius: POWERUP_RADIUS,
    }
}

/// The pickups a queue of spawn requests produces, with ids assigned
/// in order starting at `base_id`.
pub open spec fn spawned_powerups_spec(evs: Seq<SpawnPowerup>, base_id: u64) -> Seq<Powerup>
    decreases evs.len(),
{
    if evs.len() == 0 {
        Seq::empty()
    } else {
        spawned_powerups_spec(evs.drop_last(), base_id).push(
            powerup_of_event_spec(evs.last(), (base_id + evs.len() - 1) as u64),
        )
    }
}

proof fn lemma_spawned_powerups_push(evs: Seq<SpawnPowerup>, e: SpawnPowerup, base_id: u64)
    ensures
        spawned_powerups_spec(evs.push(e), base_id) == spawned_powerups_spec(evs, base_id).push(
            powerup_of_event_spec(e, (base_id + evs.len()) as u64),
        ),
{
    assert(evs.push(e).drop_last() =~= evs);
    assert(evs.push(e).last() == e);
}

/// Applies queued pickup requests: each becomes one drifting pickup.
pub fn spawn_powerups(w: &mut World, evs: &Vec<SpawnPowerup>)
    requires
        old(w).wf(),
        forall|i: int| 0 <= i < evs@.len() ==> #[trigger] evs@[i].wf(),
        old(w).next_id + evs@.len() <= u64::MAX,
    ensures
        final(w).wf(),
        *final(w) == (World {
            next_id: final(w).next_id,
            powerups: final(w).powerups,
            ..*old(w)
        }),
        final(w).powerups@ == old(w).powerups@ + spawned_powerups_spec(evs@, old(w).next_id),
        final(w).next_id == old(w).next_id + evs@.len(),
{
    let ghost orig = *w;
    let mut i: usize = 0;
    while i < evs.len()
        invariant
            i <= evs@.len(),
            w.wf(),
            orig.wf(),
            forall|k: int| 0 <= k < evs@.len() ==> #[trigger] evs@[k].wf(),
            orig.next_id + evs@.len() <= u64::MAX,
            *w == (World { next_id: w.next_id, powerups: w.powerups, ..orig }),
            w.powerups@ == orig.powerups@ + spawned_powerups_spec(
                evs@.take(i as int),
                orig.next_id,
            ),
            w.next_id == orig.next_id + i,
        decreases evs@.len() - i,
    {
        let e = evs[i];
        proof {
            assert(e.wf());
            assert(evs@.take(i as int + 1) =~= evs@.take(i as int).push(evs@[i as int]));
            lemma_spawned_powerups_push(evs@.take(i as int), e, orig.next_id);
        }
        let id = w.peek_id();
        w.push_powerup(
            Powerup {
                id,
                powerup_type: e.powerup_type,
                pos: e.position,
                vel: e.velocity,
                radius: POWERUP_RADIUS,
            },
        );
        i += 1;
    }
    proof {
        assert(evs@.take(evs@.len() as int) =~= evs@);
    }
}

/// A pickup that has drifted past the playfield edge, its own radius
/// included.
pub open spec fn powerup_offscreen_spec(p: Powerup, vp: Viewport) -> bool {
    p.pos.x > vp.half_width + p.radius || p.pos.x < -vp.half_width - p.radius
}

/// Despawns every pickup that has left the playfield, silently: no
/// effect event is emitted for a pickup nobody collected.
pub fn check_offscreen_powerups(w: &mut World, vp: &Viewport)
    requires
        old(w).wf(),
        vp.wf(),
    ensures
        final(w).wf(),
        *final(w) == (World { powerups: final(w).powerups, ..*old(w) }),
        final(w).powerups@ == old(w).powerups@.filter(
            |p: Powerup| !powerup_offscreen_spec(p, *vp),
        ),
{
    let ghost orig = *w;
    let mut kept: Vec<Powerup> = Vec::new();
    let mut i: usize = 0;
    while i < w.powerups.len()
        invariant
            i <= w.powerups@.len(),
            *w == orig,
            w.wf(),
            vp.wf(),
            kept@ == w.powerups@.take(i as int).filter(
                |p: Powerup| !powerup_offscreen_spec(p, *vp),
            ),
        decreases w.powerups@.len() - i,
    {
        let p = w.powerups[i];
        proof {
            assert(w.powerups@[i as int].wf());
            w.powerups@.take(i as int).lemma_filter_push(
                w.powerups@[i as int],
                |p: Powerup| !powerup_offscreen_spec(p, *vp),
            );
            assert(w.powerups@.take(i as int + 1) =~= w.powerups@.take(i as int).push(
                w.powerups@[i as int],
            ));
        }
        let off = (p.pos.x as i128) > (vp.half_width as i128) + (p.radius as i128) || (
        p.pos.x as i128) < -(vp.half_width as i128) - (p.radius as i128);
        if !off {
            kept.push(p);
        }
        i += 1;
    }
    proof {
        assert(w.powerups@.take(w.powerups@.len() as int) =~= w.powerups@);
    }
    w.powerups = kept;
    proof {
        crate::world::lemma_powerups_wf_filter(
            orig.powerups@,
            orig.next_id,
            |p: Powerup| !powerup_offscreen_spec(p, *vp),
        );
    }
}

/// Removes every pickup, as leaving play does.
pub fn despawn_powerups(w: &mut World)
    requires
        old(w).wf(),
    ensures
        final(w).wf(),
        *final(w) == (World { powerups: final(w).powerups, ..*old(w) }),
        final(w).powerups@.len() == 0,
{
    w.powerups = Vec::new();
}

/// The timer-gated random pickup generator.
#[derive(Clone, Copy, PartialEq, Eq, Structural, Debug)]
pub struct PowerupSpawner {
    /// Re-arming countdown between pickups.
    pub timer: Timer,
}

impl PowerupSpawner {
    pub open spec fn wf(self) -> bool {
        self.timer.wf() && self.timer.repeating
    }

    /// A spawner armed with its standard period.
    pub fn new() -> (s: PowerupSpawner)
        ensures
            s.wf(),
            s.timer == (Timer {
                duration: POWERUP_SPAWN_TIME,
                elapsed: 0,
                repeating: true,
                finished: false,
                just_finished: false,
            }),
    {
        PowerupSpawner { timer: Timer::new(POWERUP_SPAWN_TIME, true) }
    }
}

/// The shape every generated pickup request has: it enters just
/// outside the left or right edge, drifts horizontally inward, and
/// sits at a height within the upper half of the playfield.
pub open spec fn powerup_spawn_shape_spec(e: SpawnPowerup, vp: Viewport) -> bool {
    &&& e.wf()
    &&& e.velocity.y == 0
    &&& 0 <= e.position.y < vp.half_height
    &&& ((e.position.x == -vp.half_width - POWERUP_RADIUS && e.velocity.x == POWERUP_DRIFT_SPEED)
        || (e.position.x == vp.half_width + POWERUP_RADIUS && e.velocity.x
        == -POWERUP_DRIFT_SPEED))
}

/// Builds the pickup request for a drawn height, entry side and kind:
/// it enters just outside the chosen edge and drifts inward.
pub fn make_powerup_event(vp: &Viewport, y: i64, from_left: bool, kind: PowerupType) -> (e:
    SpawnPowerup)
    requires
        vp.wf(),
        0 <= y < vp.half_height,
    ensures
        powerup_spawn_shape_spec(e, *vp),
        e.powerup_type == kind,
        e.position.y == y,
        from_left ==> e.position.x == -vp.half_width - POWERUP_RADIUS && e.velocity.x
            == POWERUP_DRIFT_SPEED,
        !from_left ==> e.position.x == vp.half_width + POWERUP_RADIUS && e.velocity.x
            == -POWERUP_DRIFT_SPEED,
{
    let (x, vx) = if from_left {
        (-vp.half_width - POWERUP_RADIUS, POWERUP_DRIFT_SPEED)
    } else {
        (vp.half_width + POWERUP_RADIUS, -POWERUP_DRIFT_SPEED)
    };
    SpawnPowerup {
        powerup_type: kind,
        position: Vec2 { x, y },
        velocity: Vec2 { x: vx, y: 0 },
    }
}

/// Advances the pickup spawner. When its countdown completes it draws
/// a height, an entry side and a kind — each kind with roughly a
/// third's chance — and queues one pickup request of that shape for
/// the next tick.
pub fn run_powerup_spawner(
    spawner: &mut PowerupSpawner,
    dt: u64,
    vp: &Viewport,
    ev: &mut FrameEvents,
)
    requires
        old(spawner).wf(),
        old(ev).wf(),
        vp.wf(),
        dt <= DT_LIMIT,
    ensures
        final(spawner).wf(),
        final(ev).wf(),
        final(spawner).timer == timer_tick_spec(old(spawner).timer, dt),
        *final(ev) == (FrameEvents { spawn_powerups: final(ev).spawn_powerups, ..*old(ev) }),
        final(ev).spawn_powerups@.len() == old(ev).spawn_powerups@.len() + (
        if timer_tick_spec(old(spawner).timer, dt).just_finished {
            1int
        } else {
            0int
        }),
        forall|i: int|
            old(ev).spawn_powerups@.len() <= i < final(ev).spawn_powerups@.len()
                ==> powerup_spawn_shape_spec(#[trigger] final(ev).spawn_powerups@[i], *vp),
        final(ev).spawn_powerups@.take(old(ev).spawn_powerups@.len() as int) == old(
            ev,
        ).spawn_powerups@,
{
    spawner.timer.tick(dt);
    if spawner.timer.just_finished {
        let y = rand_in_range(0, vp.half_height);
        let from_left = rand_in_range(0, 2) == 0;
        let draw = rand_in_range(0, 3);
        let kind = if draw == 0 {
            PowerupType::Score
        } else if draw == 1 {
            PowerupType::MissileSpeed
        } else {
            PowerupType::ExplosionSize
        };
        let e = make_powerup_event(vp, y, from_left, kind);
        ev.spawn_powerups.push(e);
        proof {
            assert(ev.spawn_powerups@.take(old(ev).spawn_powerups@.len() as int) =~= old(
                ev,
            ).spawn_powerups@);
        }
    } else {
        proof {
            assert(ev.spawn_powerups@.take(old(ev).spawn_powerups@.len() as int) =~= old(
                ev,
            ).spawn_powerups@);
        }
    }
}

} // verus!
