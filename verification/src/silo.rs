//! Defender installations: ammunition and reload.
//!
//! Each installation holds a bounded ammunition count and a reload
//! countdown. Firing consumes a round and arms the countdown if it was
//! idle; a completing countdown restores exactly one round and
//! re-arms itself while the count is below the maximum. The count
//! stays within bounds by construction: firing on empty is a silent
//! no-op and reloading at the maximum adds nothing.

use vstd::prelude::*;

use crate::consts::{SILO_MAX_MISSILES, SILO_RELOAD_TIME};
use crate::geom::Vec2;
use crate::missile::SpawnMissile;
use crate::team::Team;
use crate::timer::{timer_tick_spec, Timer};
use crate::world::World;

verus! {

/// Whether the fire signal for this installation's slot is raised.
pub open spec fn wants_fire_spec(l: bool, m: bool, r: bool, loc: SiloLocation) -> bool {
    match loc {
        SiloLocation::Left => l,
        SiloLocation::Middle => m,
        SiloLocation::Right => r,
    }
}

/// Whether a fire action on this installation launches: it must hold
/// a round, and the target must give a launch direction.
pub open spec fn silo_fires_spec(s: Silo, target: Vec2) -> bool {
    s.missiles > 0 && target != s.pos
}

/// The installation after a fire action: one round fewer and the
/// reload countdown re-armed if it had completed; unchanged when the
/// action is rejected.
pub open spec fn silo_after_fire_spec(s: Silo, target: Vec2) -> Silo {
    if silo_fires_spec(s, target) {
        Silo {
            missiles: (s.missiles - 1) as u8,
            reload: if s.reload.finished {
                Timer { elapsed: 0, finished: false, just_finished: false, ..s.reload }
            } else {
                s.reload
            },
            ..s
        }
    } else {
        s
    }
}

/// Where an installation stands on the baseline.
#[derive(Clone, Copy, PartialEq, Eq, Structural, Debug)]
pub enum SiloLocation {
    Left,
    Middle,
    Right,
}

/// A defender installation.
#[derive(Clone, Copy, PartialEq, Eq, Structural, Debug)]
pub struct Silo {
    /// The entity handle.
    pub id: u64,
    /// Which slot the installation occupies.
    pub location: SiloLocation,
    /// Rounds currently held; never exceeds the maximum.
    pub missiles: u8,
    /// The reload countdown.
    pub reload: Timer,
    /// Where the installation stands (mu).
    pub pos: Vec2,
}

impl Silo {
    pub open spec fn wf(self) -> bool {
        &&& self.missiles <= SILO_MAX_MISSILES
        &&& self.reload.wf()
        &&& !self.reload.repeating
        &&& self.pos.in_pos_bounds()
    }

    /// A fresh installation with one round short of full, reloading.
    pub fn new(id: u64, location: SiloLocation, pos: Vec2) -> (s: Silo)
        requires
            pos.in_pos_bounds(),
        ensures
            s.wf(),
            s.id == id,
            s.location == location,
            s.pos == pos,
            s.missiles == SILO_MAX_MISSILES - 1,
            s.reload == Timer::spec_reload(),
    {
        Silo {
            id,
            location,
            missiles: SILO_MAX_MISSILES - 1,
            reload: Timer::new(SILO_RELOAD_TIME, false),
            pos,
        }
    }

    /// Consumes one round and emits a launch request toward `target`,
    /// re-arming the reload countdown if it had completed. With no
    /// rounds left the fire action is rejected: no event, no change.
    /// A launch whose target equals the installation's own position
    /// would have no direction; it is rejected the same way.
    pub fn fire(&mut self, target: Vec2) -> (r: Option<SpawnMissile>)
        requires
            old(self).wf(),
            target.in_pos_bounds(),
        ensures
            final(self).wf(),
            old(self).missiles == 0 || target == old(self).pos ==> r is None && *final(self)
                == *old(self),
            old(self).missiles > 0 && target != old(self).pos ==> {
                &&& r == Some(
                    SpawnMissile { position: old(self).pos, target, team: Team::Player },
                )
                &&& final(self).missiles == old(self).missiles - 1
                &&& final(self).reload == (if old(self).reload.finished {
                    Timer { elapsed: 0, finished: false, just_finished: false, ..old(self).reload }
                } else {
                    old(self).reload
                })
                &&& *final(self) == (Silo {
                    missiles: final(self).missiles,
                    reload: final(self).reload,
                    ..*old(self)
                })
            },
    {
        if self.missiles == 0 {
            return None;
        }
        if target.x == self.pos.x && target.y == self.pos.y {
            proof {
                assert(target == self.pos);
            }
            return None;
        }
        self.missiles = self.missiles - 1;
        if self.reload.finished {
            self.reload.reset();
        }
        Some(SpawnMissile { position: self.pos, target, team: Team::Player })
    }
}

impl Timer {
    /// The reload countdown as installations are built with it.
    pub open spec fn spec_reload() -> Timer {
        Timer {
            duration: SILO_RELOAD_TIME,
            elapsed: 0,
            repeating: false,
            finished: false,
            just_finished: false,
        }
    }
}

/// Tells the presentation collaborator an installation's count.
#[derive(Clone, Copy, PartialEq, Eq, Structural, Debug)]
pub struct SiloMissileCountUpdate {
    /// Which installation changed.
    pub location: SiloLocation,
    /// Its round count now.
    pub count: u8,
}

/// One installation's reload advanced by `dt`: on completion with
/// room, one round is restored and the countdown re-arms; on
/// completion at the maximum the countdown stays idle.
pub open spec fn silo_reload_spec(s: Silo, dt: u64) -> Silo {
    let ticked = timer_tick_spec(s.reload, dt);
    if ticked.just_finished && s.missiles < SILO_MAX_MISSILES {
        let restored = (s.missiles + 1) as u8;
        if restored < SILO_MAX_MISSILES {
            Silo {
                missiles: restored,
                reload: Timer { elapsed: 0, finished: false, just_finished: false, ..ticked },
                ..s
            }
        } else {
            Silo { missiles: restored, reload: ticked, ..s }
        }
    } else {
        Silo { reload: ticked, ..s }
    }
}

/// Whether the reload completed this tick with room for the round.
pub open spec fn silo_reloaded_spec(s: Silo, dt: u64) -> bool {
    timer_tick_spec(s.reload, dt).just_finished && s.missiles < SILO_MAX_MISSILES
}

/// The ammunition count is bounded at all times: a well-formed
/// installation holds between zero and the maximum, firing on an
/// empty installation changes nothing — the count never goes below
/// zero — and neither a fire action nor a completed reload leaves the
/// bounds.
pub proof fn lemma_ammo_bound(s: Silo, target: Vec2, dt: u64)
    requires
        s.wf(),
        dt <= crate::consts::DT_LIMIT,
    ensures
        0 <= s.missiles <= SILO_MAX_MISSILES,
        s.missiles == 0 ==> silo_after_fire_spec(s, target) == s,
        0 <= silo_after_fire_spec(s, target).missiles <= SILO_MAX_MISSILES,
        0 <= silo_reload_spec(s, dt).missiles <= SILO_MAX_MISSILES,
{
}

/// The reload repeats on its own: when the countdown completes with
/// rounds still missing after the restored one, it restarts at zero
/// without any external input; only a completion that fills the
/// installation leaves the countdown idle.
pub proof fn lemma_reload_auto_repeat(s: Silo, dt: u64)
    requires
        s.wf(),
        dt <= crate::consts::DT_LIMIT,
        silo_reloaded_spec(s, dt),
    ensures
        silo_reload_spec(s, dt).missiles == s.missiles + 1,
        silo_reload_spec(s, dt).missiles < SILO_MAX_MISSILES ==> {
            &&& silo_reload_spec(s, dt).reload.elapsed == 0
            &&& !silo_reload_spec(s, dt).reload.finished
        },
{
}

/// Advances every installation's reload countdown. Each countdown that
/// completes restores exactly one round — never past the maximum —
/// emits a count-changed event, and re-arms itself while rounds are
/// still missing.
pub fn check_timers(silos: &mut Vec<Silo>, dt: u64, ammo: &mut Vec<SiloMissileCountUpdate>)
    requires
        forall|i: int| 0 <= i < old(silos)@.len() ==> (#[trigger] old(silos)@[i]).wf(),
        dt <= crate::consts::DT_LIMIT,
    ensures
        final(silos)@.len() == old(silos)@.len(),
        forall|i: int|
            0 <= i < old(silos)@.len() ==> final(silos)@[i] == silo_reload_spec(
                #[trigger] old(silos)@[i],
                dt,
            ),
        forall|i: int| 0 <= i < final(silos)@.len() ==> (#[trigger] final(silos)@[i]).wf(),
        final(ammo)@ == old(ammo)@ + old(silos)@.filter(|s: Silo| silo_reloaded_spec(s, dt)).map_values(
            |s: Silo| SiloMissileCountUpdate {
                location: s.location,
                count: (s.missiles + 1) as u8,
            },
        ),
{
    let ghost orig = silos@;
    let ghost orig_ammo = ammo@;
    let mut i: usize = 0;
    while i < silos.len()
        invariant
            i <= orig.len(),
            silos@.len() == orig.len(),
            dt <= crate::consts::DT_LIMIT,
            forall|k: int| 0 <= k < orig.len() ==> (#[trigger] orig[k]).wf(),
            forall|k: int| i <= k < orig.len() ==> silos@[k] == orig[k],
            forall|k: int| 0 <= k < i ==> silos@[k] == silo_reload_spec(#[trigger] orig[k], dt),
            forall|k: int| 0 <= k < i ==> (#[trigger] silos@[k]).wf(),
            ammo@ == orig_ammo + orig.take(i as int).filter(|s: Silo| silo_reloaded_spec(s, dt)).map_values(
                |s: Silo| SiloMissileCountUpdate {
                    location: s.location,
                    count: (s.missiles + 1) as u8,
                },
            ),
        decreases orig.len() - i,
    {
        proof {
            vstd::prelude::Seq::lemma_filter_push(
                orig.take(i as int),
                orig[i as int],
                |s: Silo| silo_reloaded_spec(s, dt),
            );
            assert(orig.take(i as int + 1) =~= orig.take(i as int).push(orig[i as int]));
        }
        let mut cur = silos[i];
        cur.reload.tick(dt);
        if cur.reload.just_finished && cur.missiles < SILO_MAX_MISSILES {
            cur.missiles = cur.missiles + 1;
            if cur.missiles < SILO_MAX_MISSILES {
                cur.reload.reset();
            }
            ammo.push(SiloMissileCountUpdate { location: cur.location, count: cur.missiles });
            proof {
                assert(ammo@ =~= orig_ammo + orig.take(i as int + 1).filter(
                    |s: Silo| silo_reloaded_spec(s, dt),
                ).map_values(
                    |s: Silo| SiloMissileCountUpdate {
                        location: s.location,
                        count: (s.missiles + 1) as u8,
                    },
                ));
            }
        }
        silos.set(i, cur);
        i += 1;
    }
    proof {
        assert(orig.take(orig.len() as int) =~= orig);
    }
}

/// Advances every installation's reload countdown in the world,
/// keeping the world well-formed.
pub fn run_reload_timers(w: &mut World, dt: u64, ammo: &mut Vec<SiloMissileCountUpdate>)
    requires
        old(w).wf(),
        dt <= crate::consts::DT_LIMIT,
    ensures
        final(w).wf(),
        *final(w) == (World { silos: final(w).silos, ..*old(w) }),
        final(w).silos@.len() == old(w).silos@.len(),
        forall|i: int|
            0 <= i < old(w).silos@.len() ==> final(w).silos@[i] == silo_reload_spec(
                #[trigger] old(w).silos@[i],
                dt,
            ),
        final(ammo)@ == old(ammo)@ + old(w).silos@.filter(
            |s: Silo| silo_reloaded_spec(s, dt),
        ).map_values(
            |s: Silo| SiloMissileCountUpdate {
                location: s.location,
                count: (s.missiles + 1) as u8,
            },
        ),
{
    let ghost orig = *w;
    proof {
        assert forall|i: int|
            0 <= i < w.silos@.len() implies (#[trigger] w.silos@[i]).wf() by {}
    }
    check_timers(&mut w.silos, dt, ammo);
    proof {
        lemma_silo_pass_preserves_wf(orig, *w);
    }
}

/// Applies the tick's fire signals: each installation whose signal is
/// raised performs a fire action — consuming a round and queueing a
/// launch request toward the common target, or silently rejecting the
/// action with no round left or no direction to fly in.
pub fn fire_silos(
    w: &mut World,
    fire_left: bool,
    fire_middle: bool,
    fire_right: bool,
    target: Vec2,
    out: &mut Vec<SpawnMissile>,
)
    requires
        old(w).wf(),
        target.in_pos_bounds(),
        forall|i: int| 0 <= i < old(out)@.len() ==> (#[trigger] old(out)@[i]).wf(),
    ensures
        final(w).wf(),
        forall|i: int| 0 <= i < final(out)@.len() ==> (#[trigger] final(out)@[i]).wf(),
        *final(w) == (World { silos: final(w).silos, ..*old(w) }),
        final(w).silos@.len() == old(w).silos@.len(),
        forall|i: int|
            0 <= i < old(w).silos@.len() ==> final(w).silos@[i] == (
            if wants_fire_spec(fire_left, fire_middle, fire_right, (#[trigger] old(
                w,
            ).silos@[i]).location) {
                silo_after_fire_spec(old(w).silos@[i], target)
            } else {
                old(w).silos@[i]
            }),
        final(out)@ == old(out)@ + old(w).silos@.filter(
            |s: Silo| wants_fire_spec(fire_left, fire_middle, fire_right, s.location)
                && silo_fires_spec(s, target),
        ).map_values(|s: Silo| SpawnMissile { position: s.pos, target, team: Team::Player }),
{
    let ghost orig = *w;
    let ghost orig_out = out@;
    let mut i: usize = 0;
    while i < w.silos.len()
        invariant
            i <= orig.silos@.len(),
            w.silos@.len() == orig.silos@.len(),
            orig.wf(),
            target.in_pos_bounds(),
            *w == (World { silos: w.silos, ..orig }),
            forall|k: int| 0 <= k < out@.len() ==> (#[trigger] out@[k]).wf(),
            forall|k: int| i <= k < orig.silos@.len() ==> w.silos@[k] == orig.silos@[k],
            forall|k: int|
                0 <= k < i ==> w.silos@[k] == (
                if wants_fire_spec(fire_left, fire_middle, fire_right, (#[trigger] orig.silos@[k]).location) {
                    silo_after_fire_spec(orig.silos@[k], target)
                } else {
                    orig.silos@[k]
                }),
            out@ == orig_out + orig.silos@.take(i as int).filter(
                |s: Silo| wants_fire_spec(fire_left, fire_middle, fire_right, s.location)
                    && silo_fires_spec(s, target),
            ).map_values(|s: Silo| SpawnMissile { position: s.pos, target, team: Team::Player }),
        decreases orig.silos@.len() - i,
    {
        proof {
            assert(orig.silos@[i as int].wf());
            orig.silos@.take(i as int).lemma_filter_push(
                orig.silos@[i as int],
                |s: Silo| wants_fire_spec(fire_left, fire_middle, fire_right, s.location)
                    && silo_fires_spec(s, target),
            );
            assert(orig.silos@.take(i as int + 1) =~= orig.silos@.take(i as int).push(
                orig.silos@[i as int],
            ));
        }
        let mut cur = w.silos[i];
        let wanted = match cur.location {
            SiloLocation::Left => fire_left,
            SiloLocation::Middle => fire_middle,
            SiloLocation::Right => fire_right,
        };
        if wanted {
            match cur.fire(target) {
                Some(e) => {
                    out.push(e);
                    proof {
                        assert(out@ =~= orig_out + orig.silos@.take(i as int + 1).filter(
                            |s: Silo| wants_fire_spec(
                                fire_left,
                                fire_middle,
                                fire_right,
                                s.location,
                            ) && silo_fires_spec(s, target),
                        ).map_values(
                            |s: Silo| SpawnMissile { position: s.pos, target, team: Team::Player },
                        ));
                    }
                },
                None => {},
            }
        }
        w.silos.set(i, cur);
        i += 1;
    }
    proof {
        assert(orig.silos@.take(orig.silos@.len() as int) =~= orig.silos@);
        lemma_silo_pass_preserves_wf(orig, *w);
    }
}

/// A pass that neither renumbers nor moves installations keeps the
/// world well-formed.
proof fn lemma_silo_pass_preserves_wf(orig: World, now: World)
    requires
        orig.wf(),
        now == (World { silos: now.silos, ..orig }),
        now.silos@.len() == orig.silos@.len(),
        forall|i: int|
            0 <= i < now.silos@.len() ==> (#[trigger] now.silos@[i]).wf() && now.silos@[i].id
                == orig.silos@[i].id && now.silos@[i].location == orig.silos@[i].location,
    ensures
        now.wf(),
{
    assert forall|i: int|
        0 <= i < now.silos@.len() implies ((#[trigger] now.silos@[i]).wf() && now.silos@[i].id
        < now.next_id) by {
        assert(orig.silos@[i].wf() && orig.silos@[i].id < orig.next_id);
    }
    assert(crate::world::distinct_by(now.silos@, |x: Silo| x.id)) by {
        assert forall|i: int, j: int|
            0 <= i < j < now.silos@.len() implies (|x: Silo| x.id)(now.silos@[i]) != (
        |x: Silo| x.id)(now.silos@[j]) by {
            assert((|x: Silo| x.id)(orig.silos@[i]) != (|x: Silo| x.id)(orig.silos@[j]));
        }
    }
    assert forall|i: int, j: int|
        0 <= i < j < now.silos@.len() implies now.silos@[i].location != now.silos@[j].location by {
        assert(orig.silos@[i].location != orig.silos@[j].location);
    }
}

} // verus!
