//! Timer-gated generation of hostile projectiles.
//!
//! A primary repeating countdown launches one hostile projectile from
//! a random point on the top edge toward a random point on the bottom
//! edge; a slower secondary countdown launches a volley of three at
//! once, each with its own random endpoints.

use vstd::prelude::*;

use crate::consts::{
    DT_LIMIT, ENEMY_SPAWN_TIME, ENEMY_VOLLEY_COUNT, ENEMY_VOLLEY_TIME,
};
use crate::events::FrameEvents;
use crate::geom::{Vec2, Viewport};
use crate::missile::SpawnMissile;
use crate::rng::rand_in_range;
use crate::team::Team;
use crate::timer::{timer_tick_spec, Timer};

verus! {

/// The timer-gated random generator of hostile projectiles.
#[derive(Clone, Copy, PartialEq, Eq, Structural, Debug)]
pub struct EnemyMissileSpawner {
    /// Countdown between single launches.
    pub timer: Timer,
    /// Slower countdown between volleys.
    pub enemy_event_timer: Timer,
}

impl EnemyMissileSpawner {
    pub open spec fn wf(self) -> bool {
        &&& self.timer.wf()
        &&& self.timer.repeating
        &&& self.enemy_event_timer.wf()
        &&& self.enemy_event_timer.repeating
    }

    /// A spawner armed with the standard periods.
    pub fn new() -> (s: EnemyMissileSpawner)
        ensures
            s.wf(),
            s.timer == (Timer {
                duration: ENEMY_SPAWN_TIME,
                elapsed: 0,
                repeating: true,
                finished: false,
                just_finished: false,
            }),
            s.enemy_event_timer == (Timer {
                duration: ENEMY_VOLLEY_TIME,
                elapsed: 0,
                repeating: true,
                finished: false,
                just_finished: false,
            }),
    {
        EnemyMissileSpawner {
            timer: Timer::new(ENEMY_SPAWN_TIME, true),
            enemy_event_timer: Timer::new(ENEMY_VOLLEY_TIME, true),
        }
    }
}

/// The shape every generated hostile launch request has: from a
/// random point on the top edge toward a random point on the bottom
/// edge.
pub open spec fn enemy_spawn_shape_spec(e: SpawnMissile, vp: Viewport) -> bool {
    &&& e.wf()
    &&& e.team == Team::Enemy
    &&& e.position.y == vp.half_height
    &&& -vp.half_width <= e.position.x < vp.half_width
    &&& e.target.y == -vp.half_height
    &&& -vp.half_width <= e.target.x < vp.half_width
}

/// Draws one hostile launch request across the playfield.
fn random_enemy_missile(vp: &Viewport) -> (e: SpawnMissile)
    requires
        vp.wf(),
    ensures
        enemy_spawn_shape_spec(e, *vp),
{
    let x_pos = rand_in_range(-vp.half_width, vp.half_width);
    let x_tar = rand_in_range(-vp.half_width, vp.half_width);
    SpawnMissile {
        position: Vec2 { x: x_pos, y: vp.half_height },
        target: Vec2 { x: x_tar, y: -vp.half_height },
        team: Team::Enemy,
    }
}

/// Draws a volley of three hostile launch requests, each with its own
/// random endpoints.
pub fn multiple_missiles(vp: &Viewport) -> (r: Vec<SpawnMissile>)
    requires
        vp.wf(),
    ensures
        r@.len() == ENEMY_VOLLEY_COUNT,
        forall|i: int| 0 <= i < r@.len() ==> enemy_spawn_shape_spec(#[trigger] r@[i], *vp),
{
    let mut to_spawn: Vec<SpawnMissile> = Vec::new();
    let mut i: usize = 0;
    while i < ENEMY_VOLLEY_COUNT
        invariant
            i <= ENEMY_VOLLEY_COUNT,
            vp.wf(),
            to_spawn@.len() == i,
            forall|k: int| 0 <= k < i ==> enemy_spawn_shape_spec(#[trigger] to_spawn@[k], *vp),
        decreases ENEMY_VOLLEY_COUNT - i,
    {
        let e = random_enemy_missile(vp);
        to_spawn.push(e);
        i += 1;
    }
    to_spawn
}

/// Advances both spawn countdowns. The primary countdown queues one
/// hostile launch request on completion; the volley countdown queues
/// three. All requests run from the top edge to the bottom edge and
/// are consumed next tick.
pub fn update_timer(
    spawner: &mut EnemyMissileSpawner,
    dt: u64,
    vp: &Viewport,
    ev: &mut FrameEvents,
)
    requires
        old(spawner).wf(),
        old(ev).wf(),
        vp.wf(),
        dt <= DT_LIMIT,
    ensures
        final(spawner).wf(),
        final(ev).wf(),
        final(spawner).timer == timer_tick_spec(old(spawner).timer, dt),
        final(spawner).enemy_event_timer == timer_tick_spec(old(spawner).enemy_event_timer, dt),
        *final(ev) == (FrameEvents { spawn_missiles: final(ev).spawn_missiles, ..*old(ev) }),
        final(ev).spawn_missiles@.len() == old(ev).spawn_missiles@.len() + (
        if timer_tick_spec(old(spawner).timer, dt).just_finished {
            1int
        } else {
            0int
        }) + (if timer_tick_spec(old(spawner).enemy_event_timer, dt).just_finished {
            ENEMY_VOLLEY_COUNT as int
        } else {
            0int
        }),
        forall|i: int|
            old(ev).spawn_missiles@.len() <= i < final(ev).spawn_missiles@.len()
                ==> enemy_spawn_shape_spec(#[trigger] final(ev).spawn_missiles@[i], *vp),
        final(ev).spawn_missiles@.take(old(ev).spawn_missiles@.len() as int) == old(
            ev,
        ).spawn_missiles@,
{
    let ghost orig_q = ev.spawn_missiles@;
    spawner.timer.tick(dt);
    if spawner.timer.just_finished {
        let e = random_enemy_missile(vp);
        ev.spawn_missiles.push(e);
    }
    spawner.enemy_event_timer.tick(dt);
    if spawner.enemy_event_timer.just_finished {
        let volley = multiple_missiles(vp);
        let ghost pre_volley = ev.spawn_missiles@;
        let mut i: usize = 0;
        while i < volley.len()
            invariant
                i <= volley@.len(),
                vp.wf(),
                ev.wf(),
                forall|k: int|
                    0 <= k < volley@.len() ==> enemy_spawn_shape_spec(#[trigger] volley@[k], *vp),
                forall|k: int|
                    orig_q.len() <= k < pre_volley.len() ==> enemy_spawn_shape_spec(
                        #[trigger] pre_volley[k],
                        *vp,
                    ),
                pre_volley.take(orig_q.len() as int) == orig_q,
                orig_q.len() <= pre_volley.len(),
                ev.spawn_missiles@ == pre_volley + volley@.take(i as int),
                *ev == (FrameEvents { spawn_missiles: ev.spawn_missiles, ..*old(ev) }),
            decreases volley@.len() - i,
        {
            let e = volley[i];
            proof {
                assert(enemy_spawn_shape_spec(volley@[i as int], *vp));
            }
            ev.spawn_missiles.push(e);
            proof {
                assert(ev.spawn_missiles@ =~= pre_volley + volley@.take(i as int + 1));
            }
            i += 1;
        }
        proof {
            assert(volley@.take(volley@.len() as int) =~= volley@);
        }
    }
    proof {
        assert(ev.spawn_missiles@.take(orig_q.len() as int) =~= orig_q);
    }
}

} // verus!
