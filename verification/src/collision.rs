//! Pairwise collision resolution.
//!
//! Each pass tests every ordered pair across two entity groups in one
//! resolution sweep against the world as it stood when the sweep
//! began: an entity is destroyed exactly when some partner overlaps
//! it, so one blast destroys every hostile projectile in reach — not
//! just the nearest — and no pair is counted twice. The passes only
//! despawn the entities they identify and emit outcome events;
//! consumers act on those next tick.
//!
//! Circular volumes meet when the squared distance between centres is
//! below the squared sum of their radii; structures use a rectangle
//! test instead, matching their flat footprint.

use vstd::prelude::*;

use crate::consts::{
    BASE_EXPLOSION_MULT, BONUS_EXPLOSION_MULT, BONUS_MISSILE_SPEED, BUILDING_HALF_HEIGHT,
    BUILDING_HALF_WIDTH, BUILDING_Y_OFFSET, GROUND_PLANE_Y, MAX_EXPLOSION_MULT, MISSILE_HIT_VALUE,
    MISSILE_VALUE, SCORE_POWERUP_VALUE, SILO_HALF_HEIGHT, SILO_HALF_WIDTH, SILO_Y_OFFSET,
};
use crate::events::{
    FrameEvents, PlayAudio, SetPlayerExplosionSize, SetPlayerMissileSpeed, SoundCue,
    SpawnExplosion, UpdateScore,
};
use crate::explosion::{explosion_radius, explosion_radius_spec, Explosion};
use crate::geom;
use crate::missile::{blast_of_missile_spec, Missile};
use crate::powerups::{Powerup, PowerupType};
use crate::silo::Silo;
use crate::team::Team;
use crate::world::{Building, World};

verus! {

/// A defender blast reaches a projectile.
pub open spec fn blast_hits_missile_spec(e: Explosion, m: Missile) -> bool {
    e.team == Team::Player && geom::circles_overlap_spec(
        e.pos,
        explosion_radius_spec(e),
        m.pos,
        m.radius as int,
    )
}

/// Some defender blast reaches the projectile.
pub open spec fn missile_in_blast_spec(m: Missile, es: Seq<Explosion>) -> bool {
    exists|k: int| 0 <= k < es.len() && blast_hits_missile_spec(#[trigger] es[k], m)
}

/// A defender blast reaches a pickup.
pub open spec fn blast_hits_powerup_spec(e: Explosion, p: Powerup) -> bool {
    e.team == Team::Player && geom::circles_overlap_spec(
        e.pos,
        explosion_radius_spec(e),
        p.pos,
        p.radius as int,
    )
}

/// Some defender blast reaches the pickup.
pub open spec fn powerup_in_blast_spec(p: Powerup, es: Seq<Explosion>) -> bool {
    exists|k: int| 0 <= k < es.len() && blast_hits_powerup_spec(#[trigger] es[k], p)
}

/// Decides whether some defender blast reaches the projectile.
fn missile_in_blast(m: &Missile, es: &Vec<Explosion>) -> (hit: bool)
    requires
        m.wf(),
        forall|k: int| 0 <= k < es@.len() ==> (#[trigger] es@[k]).wf(),
    ensures
        hit == missile_in_blast_spec(*m, es@),
{
    let mut i: usize = 0;
    while i < es.len()
        invariant
            i <= es@.len(),
            m.wf(),
            forall|k: int| 0 <= k < es@.len() ==> (#[trigger] es@[k]).wf(),
            !missile_in_blast_spec(*m, es@.take(i as int)),
        decreases es@.len() - i,
    {
        let e = &es[i];
        proof {
            assert(es@[i as int].wf());
        }
        let hit = if matches!(e.team, Team::Player) {
            let r = explosion_radius(e);
            geom::circles_overlap(e.pos, r, m.pos, m.radius)
        } else {
            false
        };
        if hit {
            proof {
                assert(blast_hits_missile_spec(es@[i as int], *m));
            }
            return true;
        }
        proof {
            assert forall|k: int|
                0 <= k < i + 1 implies !blast_hits_missile_spec(#[trigger] es@[k], *m) by {
                if k < i {
                    assert(!missile_in_blast_spec(*m, es@.take(i as int)));
                    assert(es@.take(i as int)[k] == es@[k]);
                }
            }
            assert forall|k: int|
                0 <= k < es@.take(i as int + 1).len() implies !blast_hits_missile_spec(
                #[trigger] es@.take(i as int + 1)[k],
                *m,
            ) by {
                assert(es@.take(i as int + 1)[k] == es@[k]);
            }
        }
        i += 1;
    }
    proof {
        assert(es@.take(es@.len() as int) =~= es@);
    }
    false
}

/// Decides whether some defender blast reaches the pickup.
fn powerup_in_blast(p: &Powerup, es: &Vec<Explosion>) -> (hit: bool)
    requires
        p.wf(),
        forall|k: int| 0 <= k < es@.len() ==> (#[trigger] es@[k]).wf(),
    ensures
        hit == powerup_in_blast_spec(*p, es@),
{
    let mut i: usize = 0;
    while i < es.len()
        invariant
            i <= es@.len(),
            p.wf(),
            forall|k: int| 0 <= k < es@.len() ==> (#[trigger] es@[k]).wf(),
            !powerup_in_blast_spec(*p, es@.take(i as int)),
        decreases es@.len() - i,
    {
        let e = &es[i];
        proof {
            assert(es@[i as int].wf());
        }
        let hit = if matches!(e.team, Team::Player) {
            let r = explosion_radius(e);
            geom::circles_overlap(e.pos, r, p.pos, p.radius)
        } else {
            false
        };
        if hit {
            proof {
                assert(blast_hits_powerup_spec(es@[i as int], *p));
            }
            return true;
        }
        proof {
            assert forall|k: int|
                0 <= k < es@.take(i as int + 1).len() implies !blast_hits_powerup_spec(
                #[trigger] es@.take(i as int + 1)[k],
                *p,
            ) by {
                assert(es@.take(i as int + 1)[k] == es@[k]);
                if k < i {
                    assert(es@.take(i as int)[k] == es@[k]);
                }
            }
        }
        i += 1;
    }
    proof {
        assert(es@.take(es@.len() as int) =~= es@);
    }
    false
}

/// Resolves defender blasts against hostile projectiles and pickups.
/// Every hostile projectile inside some defender blast despawns and
/// scores; every pickup inside some defender blast is collected: it
/// despawns and its effect — a score bonus, a blast-size bonus or a
/// speed bonus — is emitted, with a sound cue.
pub fn explosion_collisions(w: &mut World, ev: &mut FrameEvents)
    requires
        old(w).wf(),
        old(ev).wf(),
    ensures
        final(w).wf(),
        final(ev).wf(),
        *final(w) == (World {
            missiles: final(w).missiles,
            powerups: final(w).powerups,
            ..*old(w)
        }),
        final(w).missiles@ == old(w).missiles@.filter(
            |m: Missile| !(m.team == Team::Enemy && missile_in_blast_spec(m, old(w).explosions@)),
        ),
        final(w).powerups@ == old(w).powerups@.filter(
            |p: Powerup| !powerup_in_blast_spec(p, old(w).explosions@),
        ),
        *final(ev) == (FrameEvents {
            score: final(ev).score,
            blast_bonus: final(ev).blast_bonus,
            speed_bonus: final(ev).speed_bonus,
            sounds: final(ev).sounds,
            ..*old(ev)
        }),
        final(ev).score@ == old(ev).score@ + old(w).missiles@.filter(
            |m: Missile| m.team == Team::Enemy && missile_in_blast_spec(m, old(w).explosions@),
        ).map_values(|m: Missile| UpdateScore(MISSILE_VALUE)) + old(w).powerups@.filter(
            |p: Powerup| powerup_in_blast_spec(p, old(w).explosions@) && p.powerup_type
                == PowerupType::Score,
        ).map_values(|p: Powerup| UpdateScore(SCORE_POWERUP_VALUE)),
        final(ev).blast_bonus@ == old(ev).blast_bonus@ + old(w).powerups@.filter(
            |p: Powerup| powerup_in_blast_spec(p, old(w).explosions@) && p.powerup_type
                == PowerupType::ExplosionSize,
        ).map_values(|p: Powerup| SetPlayerExplosionSize(BONUS_EXPLOSION_MULT)),
        final(ev).speed_bonus@ == old(ev).speed_bonus@ + old(w).powerups@.filter(
            |p: Powerup| powerup_in_blast_spec(p, old(w).explosions@) && p.powerup_type
                == PowerupType::MissileSpeed,
        ).map_values(|p: Powerup| SetPlayerMissileSpeed(BONUS_MISSILE_SPEED)),
        final(ev).sounds@ == old(ev).sounds@ + old(w).powerups@.filter(
            |p: Powerup| powerup_in_blast_spec(p, old(w).explosions@),
        ).map_values(|p: Powerup| PlayAudio { cue: SoundCue::Pickup }),
{
    let ghost orig = *w;
    let ghost orig_ev = *ev;
    let mut kept: Vec<Missile> = Vec::new();
    let mut i: usize = 0;
    while i < w.missiles.len()
        invariant
            i <= w.missiles@.len(),
            *w == orig,
            *ev == (FrameEvents { score: ev.score, ..orig_ev }),
            w.wf(),
            ev.wf(),
            orig_ev.wf(),
            kept@ == w.missiles@.take(i as int).filter(
                |m: Missile| !(m.team == Team::Enemy && missile_in_blast_spec(m, w.explosions@)),
            ),
            ev.score@ == orig_ev.score@ + w.missiles@.take(i as int).filter(
                |m: Missile| m.team == Team::Enemy && missile_in_blast_spec(m, w.explosions@),
            ).map_values(|m: Missile| UpdateScore(MISSILE_VALUE)),
        decreases w.missiles@.len() - i,
    {
        let m = w.missiles[i];
        proof {
            assert(w.missiles@[i as int].wf());
            w.missiles@.take(i as int).lemma_filter_push(
                w.missiles@[i as int],
                |m: Missile| !(m.team == Team::Enemy && missile_in_blast_spec(m, w.explosions@)),
            );
            w.missiles@.take(i as int).lemma_filter_push(
                w.missiles@[i as int],
                |m: Missile| m.team == Team::Enemy && missile_in_blast_spec(m, w.explosions@),
            );
            assert(w.missiles@.take(i as int + 1) =~= w.missiles@.take(i as int).push(
                w.missiles@[i as int],
            ));
        }
        let destroyed = matches!(m.team, Team::Enemy) && missile_in_blast(&m, &w.explosions);
        if destroyed {
            ev.score.push(UpdateScore(MISSILE_VALUE));
            proof {
                assert(ev.score@ =~= orig_ev.score@ + w.missiles@.take(i as int + 1).filter(
                    |m: Missile| m.team == Team::Enemy && missile_in_blast_spec(
                        m,
                        w.explosions@,
                    ),
                ).map_values(|m: Missile| UpdateScore(MISSILE_VALUE)));
            }
        } else {
            kept.push(m);
        }
        i += 1;
    }
    proof {
        assert(w.missiles@.take(w.missiles@.len() as int) =~= w.missiles@);
    }
    let mut kept_p: Vec<Powerup> = Vec::new();
    let ghost mid_score = ev.score@;
    let mut i: usize = 0;
    while i < w.powerups.len()
        invariant
            i <= w.powerups@.len(),
            *w == orig,
            *ev == (FrameEvents {
                score: ev.score,
                blast_bonus: ev.blast_bonus,
                speed_bonus: ev.speed_bonus,
                sounds: ev.sounds,
                ..orig_ev
            }),
            w.wf(),
            ev.wf(),
            orig_ev.wf(),
            ev.score@ == mid_score + w.powerups@.take(i as int).filter(
                |p: Powerup| powerup_in_blast_spec(p, w.explosions@) && p.powerup_type
                    == PowerupType::Score,
            ).map_values(|p: Powerup| UpdateScore(SCORE_POWERUP_VALUE)),
            ev.blast_bonus@ == orig_ev.blast_bonus@ + w.powerups@.take(i as int).filter(
                |p: Powerup| powerup_in_blast_spec(p, w.explosions@) && p.powerup_type
                    == PowerupType::ExplosionSize,
            ).map_values(|p: Powerup| SetPlayerExplosionSize(BONUS_EXPLOSION_MULT)),
            ev.speed_bonus@ == orig_ev.speed_bonus@ + w.powerups@.take(i as int).filter(
                |p: Powerup| powerup_in_blast_spec(p, w.explosions@) && p.powerup_type
                    == PowerupType::MissileSpeed,
            ).map_values(|p: Powerup| SetPlayerMissileSpeed(BONUS_MISSILE_SPEED)),
            ev.sounds@ == orig_ev.sounds@ + w.powerups@.take(i as int).filter(
                |p: Powerup| powerup_in_blast_spec(p, w.explosions@),
            ).map_values(|p: Powerup| PlayAudio { cue: SoundCue::Pickup }),
            kept_p@ == w.powerups@.take(i as int).filter(
                |p: Powerup| !powerup_in_blast_spec(p, w.explosions@),
            ),
        decreases w.powerups@.len() - i,
    {
        let p = w.powerups[i];
        proof {
            assert(w.powerups@[i as int].wf());
            w.powerups@.take(i as int).lemma_filter_push(
                w.powerups@[i as int],
                |p: Powerup| !powerup_in_blast_spec(p, w.explosions@),
            );
            w.powerups@.take(i as int).lemma_filter_push(
                w.powerups@[i as int],
                |p: Powerup| powerup_in_blast_spec(p, w.explosions@),
            );
            w.powerups@.take(i as int).lemma_filter_push(
                w.powerups@[i as int],
                |p: Powerup| powerup_in_blast_spec(p, w.explosions@) && p.powerup_type
                    == PowerupType::Score,
            );
            w.powerups@.take(i as int).lemma_filter_push(
                w.powerups@[i as int],
                |p: Powerup| powerup_in_blast_spec(p, w.explosions@) && p.powerup_type
                    == PowerupType::ExplosionSize,
            );
            w.powerups@.take(i as int).lemma_filter_push(
                w.powerups@[i as int],
                |p: Powerup| powerup_in_blast_spec(p, w.explosions@) && p.powerup_type
                    == PowerupType::MissileSpeed,
            );
            assert(w.powerups@.take(i as int + 1) =~= w.powerups@.take(i as int).push(
                w.powerups@[i as int],
            ));
        }
        if powerup_in_blast(&p, &w.explosions) {
            match p.powerup_type {
                PowerupType::Score => {
                    ev.score.push(UpdateScore(SCORE_POWERUP_VALUE));
                },
                PowerupType::ExplosionSize => {
                    ev.blast_bonus.push(SetPlayerExplosionSize(BONUS_EXPLOSION_MULT));
                },
                PowerupType::MissileSpeed => {
                    ev.speed_bonus.push(SetPlayerMissileSpeed(BONUS_MISSILE_SPEED));
                },
            }
            ev.sounds.push(PlayAudio { cue: SoundCue::Pickup });
            proof {
                lemma_event_seq_exts(
                    *ev,
                    orig_ev,
                    mid_score,
                    w.powerups@.take(i as int + 1),
                    w.explosions@,
                );
            }
        } else {
            kept_p.push(p);
        }
        i += 1;
    }
    proof {
        assert(w.powerups@.take(w.powerups@.len() as int) =~= w.powerups@);
    }
    w.missiles = kept;
    w.powerups = kept_p;
    proof {
        crate::world::lemma_missiles_wf_filter(
            orig.missiles@,
            orig.next_id,
            |m: Missile| !(m.team == Team::Enemy && missile_in_blast_spec(m, orig.explosions@)),
        );
        crate::world::lemma_powerups_wf_filter(
            orig.powerups@,
            orig.next_id,
            |p: Powerup| !powerup_in_blast_spec(p, orig.explosions@),
        );
    }
}

/// One resolution pass is complete: a defender blast destroys every
/// hostile projectile whose position lies within the blast's radius
/// plus the projectile's own radius — all of them in the same pass,
/// not just the nearest — and destroys nothing out of reach: a
/// hostile projectile survives the pass exactly when no defender
/// blast reaches it.
pub proof fn lemma_blast_destroys_all_in_reach(ms: Seq<Missile>, es: Seq<Explosion>)
    ensures
        forall|i: int|
            #![trigger ms[i]]
            0 <= i < ms.len() && ms[i].team == Team::Enemy && missile_in_blast_spec(ms[i], es)
                ==> !ms.filter(
                |m: Missile| !(m.team == Team::Enemy && missile_in_blast_spec(m, es)),
            ).contains(ms[i]),
        forall|i: int|
            #![trigger ms[i]]
            0 <= i < ms.len() && !(ms[i].team == Team::Enemy && missile_in_blast_spec(ms[i], es))
                ==> ms.filter(
                |m: Missile| !(m.team == Team::Enemy && missile_in_blast_spec(m, es)),
            ).contains(ms[i]),
{
    let pred = |m: Missile| !(m.team == Team::Enemy && missile_in_blast_spec(m, es));
    let out = ms.filter(pred);
    assert forall|i: int|
        0 <= i < ms.len() && ms[i].team == Team::Enemy && missile_in_blast_spec(
            #[trigger] ms[i],
            es,
        ) implies !out.contains(ms[i]) by {
        if out.contains(ms[i]) {
            let j = choose|j: int| 0 <= j < out.len() && out[j] == ms[i];
            ms.lemma_filter_pred(pred, j);
        }
    }
    assert forall|i: int|
        0 <= i < ms.len() && !((#[trigger] ms[i]).team == Team::Enemy && missile_in_blast_spec(
            ms[i],
            es,
        )) implies out.contains(ms[i]) by {
        ms.lemma_filter_contains(pred, i);
    }
}

/// Two projectiles meet under the circle rule.
pub open spec fn missiles_overlap_spec(a: Missile, b: Missile) -> bool {
    geom::circles_overlap_spec(a.pos, a.radius as int, b.pos, b.radius as int)
}

/// Some projectile of the given team overlaps this one.
pub open spec fn overlaps_team_spec(m: Missile, ms: Seq<Missile>, t: Team) -> bool {
    exists|k: int| 0 <= k < ms.len() && (#[trigger] ms[k]).team == t && missiles_overlap_spec(m, ms[k])
}

/// A defender projectile destroyed by striking a hostile one.
pub open spec fn player_missile_hits_spec(m: Missile, ms: Seq<Missile>) -> bool {
    m.team == Team::Player && overlaps_team_spec(m, ms, Team::Enemy)
}

/// A hostile projectile destroyed by a defender projectile's direct
/// hit.
pub open spec fn enemy_missile_hit_spec(m: Missile, ms: Seq<Missile>) -> bool {
    m.team == Team::Enemy && overlaps_team_spec(m, ms, Team::Player)
}

/// Decides whether some projectile of the given team overlaps `m`.
fn overlaps_team(m: &Missile, ms: &Vec<Missile>, t: Team) -> (hit: bool)
    requires
        m.wf(),
        forall|k: int| 0 <= k < ms@.len() ==> (#[trigger] ms@[k]).wf(),
    ensures
        hit == overlaps_team_spec(*m, ms@, t),
{
    let mut i: usize = 0;
    while i < ms.len()
        invariant
            i <= ms@.len(),
            m.wf(),
            forall|k: int| 0 <= k < ms@.len() ==> (#[trigger] ms@[k]).wf(),
            !overlaps_team_spec(*m, ms@.take(i as int), t),
        decreases ms@.len() - i,
    {
        let o = &ms[i];
        proof {
            assert(ms@[i as int].wf());
        }
        if o.team == t && geom::circles_overlap(m.pos, m.radius, o.pos, o.radius) {
            proof {
                assert(ms@[i as int].team == t && missiles_overlap_spec(*m, ms@[i as int]));
            }
            return true;
        }
        proof {
            assert forall|k: int|
                0 <= k < ms@.take(i as int + 1).len() implies !((#[trigger] ms@.take(
                i as int + 1,
            )[k]).team == t && missiles_overlap_spec(*m, ms@.take(i as int + 1)[k])) by {
                assert(ms@.take(i as int + 1)[k] == ms@[k]);
                if k < i {
                    assert(ms@.take(i as int)[k] == ms@[k]);
                }
            }
        }
        i += 1;
    }
    proof {
        assert(ms@.take(ms@.len() as int) =~= ms@);
    }
    false
}

/// Resolves defender projectiles against hostile projectiles: every
/// pair in mutual reach destroys both sides; each destroyed defender
/// projectile leaves a defender blast at its own position at the
/// current multiplier, and each hostile projectile struck this way
/// scores the direct-hit value.
pub fn missile_collisions(w: &mut World, ev: &mut FrameEvents, player_mult: u32)
    requires
        old(w).wf(),
        old(ev).wf(),
        0 < player_mult <= MAX_EXPLOSION_MULT,
    ensures
        final(w).wf(),
        final(ev).wf(),
        *final(w) == (World { missiles: final(w).missiles, ..*old(w) }),
        final(w).missiles@ == old(w).missiles@.filter(
            |m: Missile| !player_missile_hits_spec(m, old(w).missiles@)
                && !enemy_missile_hit_spec(m, old(w).missiles@),
        ),
        *final(ev) == (FrameEvents {
            spawn_explosions: final(ev).spawn_explosions,
            score: final(ev).score,
            ..*old(ev)
        }),
        final(ev).spawn_explosions@ == old(ev).spawn_explosions@ + old(w).missiles@.filter(
            |m: Missile| player_missile_hits_spec(m, old(w).missiles@),
        ).map_values(|m: Missile| blast_of_missile_spec(m, player_mult)),
        final(ev).score@ == old(ev).score@ + old(w).missiles@.filter(
            |m: Missile| enemy_missile_hit_spec(m, old(w).missiles@),
        ).map_values(|m: Missile| UpdateScore(MISSILE_HIT_VALUE)),
{
    let ghost orig = *w;
    let ghost orig_ev = *ev;
    let mut kept: Vec<Missile> = Vec::new();
    let mut i: usize = 0;
    while i < w.missiles.len()
        invariant
            i <= w.missiles@.len(),
            *w == orig,
            *ev == (FrameEvents {
                spawn_explosions: ev.spawn_explosions,
                score: ev.score,
                ..orig_ev
            }),
            w.wf(),
            ev.wf(),
            orig_ev.wf(),
            0 < player_mult <= MAX_EXPLOSION_MULT,
            kept@ == w.missiles@.take(i as int).filter(
                |m: Missile| !player_missile_hits_spec(m, w.missiles@)
                    && !enemy_missile_hit_spec(m, w.missiles@),
            ),
            ev.spawn_explosions@ == orig_ev.spawn_explosions@ + w.missiles@.take(i as int).filter(
                |m: Missile| player_missile_hits_spec(m, w.missiles@),
            ).map_values(|m: Missile| blast_of_missile_spec(m, player_mult)),
            ev.score@ == orig_ev.score@ + w.missiles@.take(i as int).filter(
                |m: Missile| enemy_missile_hit_spec(m, w.missiles@),
            ).map_values(|m: Missile| UpdateScore(MISSILE_HIT_VALUE)),
        decreases w.missiles@.len() - i,
    {
        let m = w.missiles[i];
        proof {
            assert(w.missiles@[i as int].wf());
            w.missiles@.take(i as int).lemma_filter_push(
                w.missiles@[i as int],
                |m: Missile| !player_missile_hits_spec(m, w.missiles@)
                    && !enemy_missile_hit_spec(m, w.missiles@),
            );
            w.missiles@.take(i as int).lemma_filter_push(
                w.missiles@[i as int],
                |m: Missile| player_missile_hits_spec(m, w.missiles@),
            );
            w.missiles@.take(i as int).lemma_filter_push(
                w.missiles@[i as int],
                |m: Missile| enemy_missile_hit_spec(m, w.missiles@),
            );
            assert(w.missiles@.take(i as int + 1) =~= w.missiles@.take(i as int).push(
                w.missiles@[i as int],
            ));
        }
        if matches!(m.team, Team::Player) && overlaps_team(&m, &w.missiles, Team::Enemy) {
            ev.spawn_explosions.push(
                SpawnExplosion { position: m.pos, team: Team::Player, size_milli: player_mult },
            );
            proof {
                assert(ev.spawn_explosions@ =~= orig_ev.spawn_explosions@ + w.missiles@.take(
                    i as int + 1,
                ).filter(|m: Missile| player_missile_hits_spec(m, w.missiles@)).map_values(
                    |m: Missile| blast_of_missile_spec(m, player_mult),
                ));
            }
        } else if matches!(m.team, Team::Enemy) && overlaps_team(&m, &w.missiles, Team::Player) {
            ev.score.push(UpdateScore(MISSILE_HIT_VALUE));
            proof {
                assert(ev.score@ =~= orig_ev.score@ + w.missiles@.take(i as int + 1).filter(
                    |m: Missile| enemy_missile_hit_spec(m, w.missiles@),
                ).map_values(|m: Missile| UpdateScore(MISSILE_HIT_VALUE)));
            }
        } else {
            kept.push(m);
        }
        i += 1;
    }
    proof {
        assert(w.missiles@.take(w.missiles@.len() as int) =~= w.missiles@);
    }
    w.missiles = kept;
    proof {
        crate::world::lemma_missiles_wf_filter(
            orig.missiles@,
            orig.next_id,
            |m: Missile| !player_missile_hits_spec(m, orig.missiles@) && !enemy_missile_hit_spec(
                m,
                orig.missiles@,
            ),
        );
    }
}

/// A projectile sits inside a building's footprint.
pub open spec fn missile_hits_building_spec(m: Missile, b: Building) -> bool {
    geom::point_in_rect_spec(
        m.pos,
        b.pos,
        BUILDING_HALF_WIDTH as int,
        BUILDING_HALF_HEIGHT as int,
        BUILDING_Y_OFFSET as int,
    )
}

/// A projectile sits inside an installation's footprint.
pub open spec fn missile_hits_silo_spec(m: Missile, s: Silo) -> bool {
    geom::point_in_rect_spec(
        m.pos,
        s.pos,
        SILO_HALF_WIDTH as int,
        SILO_HALF_HEIGHT as int,
        SILO_Y_OFFSET as int,
    )
}

/// A hostile projectile that has struck some structure.
pub open spec fn enemy_missile_strikes_spec(m: Missile, bs: Seq<Building>, ss: Seq<Silo>) -> bool {
    m.team == Team::Enemy && ((exists|k: int|
        0 <= k < bs.len() && missile_hits_building_spec(m, #[trigger] bs[k])) || (exists|k: int|
        0 <= k < ss.len() && missile_hits_silo_spec(m, #[trigger] ss[k])))
}

/// A building struck by some hostile projectile.
pub open spec fn building_struck_spec(b: Building, ms: Seq<Missile>) -> bool {
    exists|k: int|
        0 <= k < ms.len() && (#[trigger] ms[k]).team == Team::Enemy && missile_hits_building_spec(
            ms[k],
            b,
        )
}

/// An installation struck by some hostile projectile.
pub open spec fn silo_struck_spec(s: Silo, ms: Seq<Missile>) -> bool {
    exists|k: int|
        0 <= k < ms.len() && (#[trigger] ms[k]).team == Team::Enemy && missile_hits_silo_spec(
            ms[k],
            s,
        )
}

/// Decides whether a hostile projectile has struck some structure.
fn missile_strikes_structures(m: &Missile, bs: &Vec<Building>, ss: &Vec<Silo>) -> (hit: bool)
    requires
        m.wf(),
        m.team == Team::Enemy,
        forall|k: int| 0 <= k < bs@.len() ==> (#[trigger] bs@[k]).wf(),
        forall|k: int| 0 <= k < ss@.len() ==> (#[trigger] ss@[k]).wf(),
    ensures
        hit == enemy_missile_strikes_spec(*m, bs@, ss@),
{
    let mut i: usize = 0;
    while i < bs.len()
        invariant
            i <= bs@.len(),
            m.wf(),
            m.team == Team::Enemy,
            forall|k: int| 0 <= k < bs@.len() ==> (#[trigger] bs@[k]).wf(),
            forall|k: int| 0 <= k < i ==> !missile_hits_building_spec(*m, #[trigger] bs@[k]),
        decreases bs@.len() - i,
    {
        proof {
            assert(bs@[i as int].wf());
        }
        let b = &bs[i];
        if geom::point_in_rect(
            m.pos,
            b.pos,
            BUILDING_HALF_WIDTH,
            BUILDING_HALF_HEIGHT,
            BUILDING_Y_OFFSET,
        ) {
            proof {
                assert(missile_hits_building_spec(*m, bs@[i as int]));
            }
            return true;
        }
        i += 1;
    }
    let mut i: usize = 0;
    while i < ss.len()
        invariant
            i <= ss@.len(),
            m.wf(),
            m.team == Team::Enemy,
            forall|k: int| 0 <= k < ss@.len() ==> (#[trigger] ss@[k]).wf(),
            forall|k: int| 0 <= k < i ==> !missile_hits_silo_spec(*m, #[trigger] ss@[k]),
        decreases ss@.len() - i,
    {
        proof {
            assert(ss@[i as int].wf());
        }
        let s = &ss[i];
        if geom::point_in_rect(m.pos, s.pos, SILO_HALF_WIDTH, SILO_HALF_HEIGHT, SILO_Y_OFFSET) {
            proof {
                assert(missile_hits_silo_spec(*m, ss@[i as int]));
            }
            return true;
        }
        i += 1;
    }
    false
}

/// Decides whether some hostile projectile sits in a building's
/// footprint.
fn building_struck(b: &Building, ms: &Vec<Missile>) -> (hit: bool)
    requires
        b.wf(),
        forall|k: int| 0 <= k < ms@.len() ==> (#[trigger] ms@[k]).wf(),
    ensures
        hit == building_struck_spec(*b, ms@),
{
    let mut i: usize = 0;
    while i < ms.len()
        invariant
            i <= ms@.len(),
            b.wf(),
            forall|k: int| 0 <= k < ms@.len() ==> (#[trigger] ms@[k]).wf(),
            forall|k: int|
                0 <= k < i ==> !((#[trigger] ms@[k]).team == Team::Enemy
                    && missile_hits_building_spec(ms@[k], *b)),
        decreases ms@.len() - i,
    {
        proof {
            assert(ms@[i as int].wf());
        }
        let m = &ms[i];
        if matches!(m.team, Team::Enemy) && geom::point_in_rect(
            m.pos,
            b.pos,
            BUILDING_HALF_WIDTH,
            BUILDING_HALF_HEIGHT,
            BUILDING_Y_OFFSET,
        ) {
            proof {
                assert(ms@[i as int].team == Team::Enemy && missile_hits_building_spec(
                    ms@[i as int],
                    *b,
                ));
            }
            return true;
        }
        i += 1;
    }
    false
}

/// Decides whether some hostile projectile sits in an installation's
/// footprint.
fn silo_struck(s: &Silo, ms: &Vec<Missile>) -> (hit: bool)
    requires
        s.wf(),
        forall|k: int| 0 <= k < ms@.len() ==> (#[trigger] ms@[k]).wf(),
    ensures
        hit == silo_struck_spec(*s, ms@),
{
    let mut i: usize = 0;
    while i < ms.len()
        invariant
            i <= ms@.len(),
            s.wf(),
            forall|k: int| 0 <= k < ms@.len() ==> (#[trigger] ms@[k]).wf(),
            forall|k: int|
                0 <= k < i ==> !((#[trigger] ms@[k]).team == Team::Enemy
                    && missile_hits_silo_spec(ms@[k], *s)),
        decreases ms@.len() - i,
    {
        proof {
            assert(ms@[i as int].wf());
        }
        let m = &ms[i];
        if matches!(m.team, Team::Enemy) && geom::point_in_rect(
            m.pos,
            s.pos,
            SILO_HALF_WIDTH,
            SILO_HALF_HEIGHT,
            SILO_Y_OFFSET,
        ) {
            proof {
                assert(ms@[i as int].team == Team::Enemy && missile_hits_silo_spec(
                    ms@[i as int],
                    *s,
                ));
            }
            return true;
        }
        i += 1;
    }
    false
}

/// Resolves hostile projectiles against structures. A hostile
/// projectile inside some structure's footprint despawns and leaves a
/// hostile blast at its own position; every structure struck this way
/// is destroyed — removed for good, never repaired — and drops debris
/// of its kind at its own horizontal position.
pub fn enemy_missile_collisions(w: &mut World, ev: &mut FrameEvents)
    requires
        old(w).wf(),
        old(ev).wf(),
    ensures
        final(w).wf(),
        final(ev).wf(),
        *final(w) == (World {
            missiles: final(w).missiles,
            buildings: final(w).buildings,
            silos: final(w).silos,
            ..*old(w)
        }),
        final(w).missiles@ == old(w).missiles@.filter(
            |m: Missile| !enemy_missile_strikes_spec(m, old(w).buildings@, old(w).silos@),
        ),
        final(w).buildings@ == old(w).buildings@.filter(
            |b: Building| !building_struck_spec(b, old(w).missiles@),
        ),
        final(w).silos@ == old(w).silos@.filter(
            |s: Silo| !silo_struck_spec(s, old(w).missiles@),
        ),
        *final(ev) == (FrameEvents {
            spawn_explosions: final(ev).spawn_explosions,
            spawn_debris: final(ev).spawn_debris,
            ..*old(ev)
        }),
        final(ev).spawn_explosions@ == old(ev).spawn_explosions@ + old(w).missiles@.filter(
            |m: Missile| enemy_missile_strikes_spec(m, old(w).buildings@, old(w).silos@),
        ).map_values(
            |m: Missile| SpawnExplosion {
                position: m.pos,
                team: Team::Enemy,
                size_milli: BASE_EXPLOSION_MULT,
            },
        ),
        final(ev).spawn_debris@ == old(ev).spawn_debris@ + old(w).buildings@.filter(
            |b: Building| building_struck_spec(b, old(w).missiles@),
        ).map_values(
            |b: Building| crate::debris::SpawnDebris {
                x_position: b.pos.x,
                debris_type: crate::debris::DebrisType::Building,
            },
        ) + old(w).silos@.filter(|s: Silo| silo_struck_spec(s, old(w).missiles@)).map_values(
            |s: Silo| crate::debris::SpawnDebris {
                x_position: s.pos.x,
                debris_type: crate::debris::DebrisType::Silo,
            },
        ),
{
    let ghost orig = *w;
    let ghost orig_ev = *ev;
    let mut kept: Vec<Missile> = Vec::new();
    let mut i: usize = 0;
    while i < w.missiles.len()
        invariant
            i <= w.missiles@.len(),
            *w == orig,
            *ev == (FrameEvents { spawn_explosions: ev.spawn_explosions, ..orig_ev }),
            w.wf(),
            ev.wf(),
            orig_ev.wf(),
            kept@ == w.missiles@.take(i as int).filter(
                |m: Missile| !enemy_missile_strikes_spec(m, w.buildings@, w.silos@),
            ),
            ev.spawn_explosions@ == orig_ev.spawn_explosions@ + w.missiles@.take(i as int).filter(
                |m: Missile| enemy_missile_strikes_spec(m, w.buildings@, w.silos@),
            ).map_values(
                |m: Missile| SpawnExplosion {
                    position: m.pos,
                    team: Team::Enemy,
                    size_milli: BASE_EXPLOSION_MULT,
                },
            ),
        decreases w.missiles@.len() - i,
    {
        let m = w.missiles[i];
        proof {
            assert(w.missiles@[i as int].wf());
            w.missiles@.take(i as int).lemma_filter_push(
                w.missiles@[i as int],
                |m: Missile| !enemy_missile_strikes_spec(m, w.buildings@, w.silos@),
            );
            w.missiles@.take(i as int).lemma_filter_push(
                w.missiles@[i as int],
                |m: Missile| enemy_missile_strikes_spec(m, w.buildings@, w.silos@),
            );
            assert(w.missiles@.take(i as int + 1) =~= w.missiles@.take(i as int).push(
                w.missiles@[i as int],
            ));
        }
        if matches!(m.team, Team::Enemy) && missile_strikes_structures(
            &m,
            &w.buildings,
            &w.silos,
        ) {
            ev.spawn_explosions.push(
                SpawnExplosion {
                    position: m.pos,
                    team: Team::Enemy,
                    size_milli: BASE_EXPLOSION_MULT,
                },
            );
            proof {
                assert(ev.spawn_explosions@ =~= orig_ev.spawn_explosions@ + w.missiles@.take(
                    i as int + 1,
                ).filter(
                    |m: Missile| enemy_missile_strikes_spec(m, w.buildings@, w.silos@),
                ).map_values(
                    |m: Missile| SpawnExplosion {
                        position: m.pos,
                        team: Team::Enemy,
                        size_milli: BASE_EXPLOSION_MULT,
                    },
                ));
            }
        } else {
            kept.push(m);
        }
        i += 1;
    }
    proof {
        assert(w.missiles@.take(w.missiles@.len() as int) =~= w.missiles@);
    }
    let mut kept_b: Vec<Building> = Vec::new();
    let mut i: usize = 0;
    while i < w.buildings.len()
        invariant
            i <= w.buildings@.len(),
            *w == orig,
            *ev == (FrameEvents {
                spawn_explosions: ev.spawn_explosions,
                spawn_debris: ev.spawn_debris,
                ..orig_ev
            }),
            w.wf(),
            ev.wf(),
            orig_ev.wf(),
            ev.spawn_explosions@ == orig_ev.spawn_explosions@ + w.missiles@.filter(
                |m: Missile| enemy_missile_strikes_spec(m, w.buildings@, w.silos@),
            ).map_values(
                |m: Missile| SpawnExplosion {
                    position: m.pos,
                    team: Team::Enemy,
                    size_milli: BASE_EXPLOSION_MULT,
                },
            ),
            kept_b@ == w.buildings@.take(i as int).filter(
                |b: Building| !building_struck_spec(b, w.missiles@),
            ),
            ev.spawn_debris@ == orig_ev.spawn_debris@ + w.buildings@.take(i as int).filter(
                |b: Building| building_struck_spec(b, w.missiles@),
            ).map_values(
                |b: Building| crate::debris::SpawnDebris {
                    x_position: b.pos.x,
                    debris_type: crate::debris::DebrisType::Building,
                },
            ),
        decreases w.buildings@.len() - i,
    {
        let b = w.buildings[i];
        proof {
            assert(w.buildings@[i as int].wf());
            w.buildings@.take(i as int).lemma_filter_push(
                w.buildings@[i as int],
                |b: Building| !building_struck_spec(b, w.missiles@),
            );
            w.buildings@.take(i as int).lemma_filter_push(
                w.buildings@[i as int],
                |b: Building| building_struck_spec(b, w.missiles@),
            );
            assert(w.buildings@.take(i as int + 1) =~= w.buildings@.take(i as int).push(
                w.buildings@[i as int],
            ));
        }
        if building_struck(&b, &w.missiles) {
            ev.spawn_debris.push(
                crate::debris::SpawnDebris {
                    x_position: b.pos.x,
                    debris_type: crate::debris::DebrisType::Building,
                },
            );
            proof {
                assert(ev.spawn_debris@ =~= orig_ev.spawn_debris@ + w.buildings@.take(
                    i as int + 1,
                ).filter(|b: Building| building_struck_spec(b, w.missiles@)).map_values(
                    |b: Building| crate::debris::SpawnDebris {
                        x_position: b.pos.x,
                        debris_type: crate::debris::DebrisType::Building,
                    },
                ));
            }
        } else {
            kept_b.push(b);
        }
        i += 1;
    }
    proof {
        assert(w.buildings@.take(w.buildings@.len() as int) =~= w.buildings@);
    }
    let ghost mid_debris = ev.spawn_debris@;
    let mut kept_s: Vec<Silo> = Vec::new();
    let mut i: usize = 0;
    while i < w.silos.len()
        invariant
            i <= w.silos@.len(),
            *w == orig,
            *ev == (FrameEvents {
                spawn_explosions: ev.spawn_explosions,
                spawn_debris: ev.spawn_debris,
                ..orig_ev
            }),
            w.wf(),
            ev.wf(),
            orig_ev.wf(),
            ev.spawn_explosions@ == orig_ev.spawn_explosions@ + w.missiles@.filter(
                |m: Missile| enemy_missile_strikes_spec(m, w.buildings@, w.silos@),
            ).map_values(
                |m: Missile| SpawnExplosion {
                    position: m.pos,
                    team: Team::Enemy,
                    size_milli: BASE_EXPLOSION_MULT,
                },
            ),
            kept_s@ == w.silos@.take(i as int).filter(
                |s: Silo| !silo_struck_spec(s, w.missiles@),
            ),
            ev.spawn_debris@ == mid_debris + w.silos@.take(i as int).filter(
                |s: Silo| silo_struck_spec(s, w.missiles@),
            ).map_values(
                |s: Silo| crate::debris::SpawnDebris {
                    x_position: s.pos.x,
                    debris_type: crate::debris::DebrisType::Silo,
                },
            ),
        decreases w.silos@.len() - i,
    {
        let s = w.silos[i];
        proof {
            assert(w.silos@[i as int].wf());
            w.silos@.take(i as int).lemma_filter_push(
                w.silos@[i as int],
                |s: Silo| !silo_struck_spec(s, w.missiles@),
            );
            w.silos@.take(i as int).lemma_filter_push(
                w.silos@[i as int],
                |s: Silo| silo_struck_spec(s, w.missiles@),
            );
            assert(w.silos@.take(i as int + 1) =~= w.silos@.take(i as int).push(
                w.silos@[i as int],
            ));
        }
        if silo_struck(&s, &w.missiles) {
            ev.spawn_debris.push(
                crate::debris::SpawnDebris {
                    x_position: s.pos.x,
                    debris_type: crate::debris::DebrisType::Silo,
                },
            );
            proof {
                assert(ev.spawn_debris@ =~= mid_debris + w.silos@.take(i as int + 1).filter(
                    |s: Silo| silo_struck_spec(s, w.missiles@),
                ).map_values(
                    |s: Silo| crate::debris::SpawnDebris {
                        x_position: s.pos.x,
                        debris_type: crate::debris::DebrisType::Silo,
                    },
                ));
            }
        } else {
            kept_s.push(s);
        }
        i += 1;
    }
    proof {
        assert(w.silos@.take(w.silos@.len() as int) =~= w.silos@);
    }
    w.missiles = kept;
    w.buildings = kept_b;
    w.silos = kept_s;
    proof {
        crate::world::lemma_missiles_wf_filter(
            orig.missiles@,
            orig.next_id,
            |m: Missile| !enemy_missile_strikes_spec(m, orig.buildings@, orig.silos@),
        );
        crate::world::lemma_buildings_wf_filter(
            orig.buildings@,
            orig.next_id,
            |b: Building| !building_struck_spec(b, orig.missiles@),
        );
        crate::world::lemma_silos_wf_filter(
            orig.silos@,
            orig.next_id,
            |s: Silo| !silo_struck_spec(s, orig.missiles@),
        );
    }
}

/// A projectile that has fallen below the ground plane.
pub open spec fn missile_grounded_spec(m: Missile) -> bool {
    m.pos.y < GROUND_PLANE_Y
}

/// Resolves projectiles against the ground: a one-sided test on the
/// vertical position. A grounded projectile despawns and leaves a
/// blast of its own team at its position — at the defender's current
/// multiplier for defender projectiles, neutral for hostile ones.
pub fn missile_ground_collisions(w: &mut World, ev: &mut FrameEvents, player_mult: u32)
    requires
        old(w).wf(),
        old(ev).wf(),
        0 < player_mult <= MAX_EXPLOSION_MULT,
    ensures
        final(w).wf(),
        final(ev).wf(),
        *final(w) == (World { missiles: final(w).missiles, ..*old(w) }),
        final(w).missiles@ == old(w).missiles@.filter(|m: Missile| !missile_grounded_spec(m)),
        *final(ev) == (FrameEvents { spawn_explosions: final(ev).spawn_explosions, ..*old(ev) }),
        final(ev).spawn_explosions@ == old(ev).spawn_explosions@ + old(w).missiles@.filter(
            |m: Missile| missile_grounded_spec(m),
        ).map_values(|m: Missile| blast_of_missile_spec(m, player_mult)),
{
    let ghost orig = *w;
    let ghost orig_ev = *ev;
    let mut kept: Vec<Missile> = Vec::new();
    let mut i: usize = 0;
    while i < w.missiles.len()
        invariant
            i <= w.missiles@.len(),
            *w == orig,
            *ev == (FrameEvents { spawn_explosions: ev.spawn_explosions, ..orig_ev }),
            w.wf(),
            ev.wf(),
            orig_ev.wf(),
            0 < player_mult <= MAX_EXPLOSION_MULT,
            kept@ == w.missiles@.take(i as int).filter(|m: Missile| !missile_grounded_spec(m)),
            ev.spawn_explosions@ == orig_ev.spawn_explosions@ + w.missiles@.take(i as int).filter(
                |m: Missile| missile_grounded_spec(m),
            ).map_values(|m: Missile| blast_of_missile_spec(m, player_mult)),
        decreases w.missiles@.len() - i,
    {
        let m = w.missiles[i];
        proof {
            assert(w.missiles@[i as int].wf());
            w.missiles@.take(i as int).lemma_filter_push(
                w.missiles@[i as int],
                |m: Missile| !missile_grounded_spec(m),
            );
            w.missiles@.take(i as int).lemma_filter_push(
                w.missiles@[i as int],
                |m: Missile| missile_grounded_spec(m),
            );
            assert(w.missiles@.take(i as int + 1) =~= w.missiles@.take(i as int).push(
                w.missiles@[i as int],
            ));
        }
        if m.pos.y < GROUND_PLANE_Y {
            ev.spawn_explosions.push(
                SpawnExplosion {
                    position: m.pos,
                    team: m.team,
                    size_milli: match m.team {
                        Team::Player => player_mult,
                        Team::Enemy => BASE_EXPLOSION_MULT,
                    },
                },
            );
            proof {
                assert(ev.spawn_explosions@ =~= orig_ev.spawn_explosions@ + w.missiles@.take(
                    i as int + 1,
                ).filter(|m: Missile| missile_grounded_spec(m)).map_values(
                    |m: Missile| blast_of_missile_spec(m, player_mult),
                ));
            }
        } else {
            kept.push(m);
        }
        i += 1;
    }
    proof {
        assert(w.missiles@.take(w.missiles@.len() as int) =~= w.missiles@);
    }
    w.missiles = kept;
    proof {
        crate::world::lemma_missiles_wf_filter(
            orig.missiles@,
            orig.next_id,
            |m: Missile| !missile_grounded_spec(m),
        );
    }
}

/// A projectile and a pickup meet under the circle rule.
pub open spec fn missile_touches_powerup_spec(m: Missile, p: Powerup) -> bool {
    geom::circles_overlap_spec(m.pos, m.radius as int, p.pos, p.radius as int)
}

/// A defender projectile that has flown into some pickup.
pub open spec fn player_missile_takes_spec(m: Missile, ps: Seq<Powerup>) -> bool {
    m.team == Team::Player && exists|k: int|
        0 <= k < ps.len() && missile_touches_powerup_spec(m, #[trigger] ps[k])
}

/// A pickup collected by some defender projectile.
pub open spec fn powerup_taken_spec(p: Powerup, ms: Seq<Missile>) -> bool {
    exists|k: int|
        0 <= k < ms.len() && (#[trigger] ms[k]).team == Team::Player
            && missile_touches_powerup_spec(ms[k], p)
}

/// Decides whether a projectile touches some pickup.
fn missile_touches_any_powerup(m: &Missile, ps: &Vec<Powerup>) -> (hit: bool)
    requires
        m.wf(),
        forall|k: int| 0 <= k < ps@.len() ==> (#[trigger] ps@[k]).wf(),
    ensures
        hit == exists|k: int|
            0 <= k < ps@.len() && missile_touches_powerup_spec(*m, #[trigger] ps@[k]),
{
    let mut i: usize = 0;
    while i < ps.len()
        invariant
            i <= ps@.len(),
            m.wf(),
            forall|k: int| 0 <= k < ps@.len() ==> (#[trigger] ps@[k]).wf(),
            forall|k: int| 0 <= k < i ==> !missile_touches_powerup_spec(*m, #[trigger] ps@[k]),
        decreases ps@.len() - i,
    {
        proof {
            assert(ps@[i as int].wf());
        }
        let p = &ps[i];
        if geom::circles_overlap(m.pos, m.radius, p.pos, p.radius) {
            return true;
        }
        i += 1;
    }
    false
}

/// Decides whether some defender projectile touches the pickup.
fn powerup_touched_by_player(p: &Powerup, ms: &Vec<Missile>) -> (hit: bool)
    requires
        p.wf(),
        forall|k: int| 0 <= k < ms@.len() ==> (#[trigger] ms@[k]).wf(),
    ensures
        hit == powerup_taken_spec(*p, ms@),
{
    let mut i: usize = 0;
    while i < ms.len()
        invariant
            i <= ms@.len(),
            p.wf(),
            forall|k: int| 0 <= k < ms@.len() ==> (#[trigger] ms@[k]).wf(),
            forall|k: int|
                0 <= k < i ==> !((#[trigger] ms@[k]).team == Team::Player
                    && missile_touches_powerup_spec(ms@[k], *p)),
        decreases ms@.len() - i,
    {
        proof {
            assert(ms@[i as int].wf());
        }
        let m = &ms[i];
        if matches!(m.team, Team::Player) && geom::circles_overlap(
            m.pos,
            m.radius,
            p.pos,
            p.radius,
        ) {
            return true;
        }
        i += 1;
    }
    false
}

/// Resolves defender projectiles against pickups: a projectile that
/// flies into a pickup detonates there — despawning with a defender
/// blast at the current multiplier — and every pickup touched this
/// way is collected, granting its effect with a sound cue.
pub fn powerup_collisions(w: &mut World, ev: &mut FrameEvents, player_mult: u32)
    requires
        old(w).wf(),
        old(ev).wf(),
        0 < player_mult <= MAX_EXPLOSION_MULT,
    ensures
        final(w).wf(),
        final(ev).wf(),
        *final(w) == (World {
            missiles: final(w).missiles,
            powerups: final(w).powerups,
            ..*old(w)
        }),
        final(w).missiles@ == old(w).missiles@.filter(
            |m: Missile| !player_missile_takes_spec(m, old(w).powerups@),
        ),
        final(w).powerups@ == old(w).powerups@.filter(
            |p: Powerup| !powerup_taken_spec(p, old(w).missiles@),
        ),
        *final(ev) == (FrameEvents {
            spawn_explosions: final(ev).spawn_explosions,
            score: final(ev).score,
            blast_bonus: final(ev).blast_bonus,
            speed_bonus: final(ev).speed_bonus,
            sounds: final(ev).sounds,
            ..*old(ev)
        }),
        final(ev).spawn_explosions@ == old(ev).spawn_explosions@ + old(w).missiles@.filter(
            |m: Missile| player_missile_takes_spec(m, old(w).powerups@),
        ).map_values(|m: Missile| blast_of_missile_spec(m, player_mult)),
        final(ev).score@ == old(ev).score@ + old(w).powerups@.filter(
            |p: Powerup| powerup_taken_spec(p, old(w).missiles@) && p.powerup_type
                == PowerupType::Score,
        ).map_values(|p: Powerup| UpdateScore(SCORE_POWERUP_VALUE)),
        final(ev).blast_bonus@ == old(ev).blast_bonus@ + old(w).powerups@.filter(
            |p: Powerup| powerup_taken_spec(p, old(w).missiles@) && p.powerup_type
                == PowerupType::ExplosionSize,
        ).map_values(|p: Powerup| SetPlayerExplosionSize(BONUS_EXPLOSION_MULT)),
        final(ev).speed_bonus@ == old(ev).speed_bonus@ + old(w).powerups@.filter(
            |p: Powerup| powerup_taken_spec(p, old(w).missiles@) && p.powerup_type
                == PowerupType::MissileSpeed,
        ).map_values(|p: Powerup| SetPlayerMissileSpeed(BONUS_MISSILE_SPEED)),
        final(ev).sounds@ == old(ev).sounds@ + old(w).powerups@.filter(
            |p: Powerup| powerup_taken_spec(p, old(w).missiles@),
        ).map_values(|p: Powerup| PlayAudio { cue: SoundCue::Pickup }),
{
    let ghost orig = *w;
    let ghost orig_ev = *ev;
    let mut kept: Vec<Missile> = Vec::new();
    let mut i: usize = 0;
    while i < w.missiles.len()
        invariant
            i <= w.missiles@.len(),
            *w == orig,
            *ev == (FrameEvents { spawn_explosions: ev.spawn_explosions, ..orig_ev }),
            w.wf(),
            ev.wf(),
            orig_ev.wf(),
            0 < player_mult <= MAX_EXPLOSION_MULT,
            kept@ == w.missiles@.take(i as int).filter(
                |m: Missile| !player_missile_takes_spec(m, w.powerups@),
            ),
            ev.spawn_explosions@ == orig_ev.spawn_explosions@ + w.missiles@.take(i as int).filter(
                |m: Missile| player_missile_takes_spec(m, w.powerups@),
            ).map_values(|m: Missile| blast_of_missile_spec(m, player_mult)),
        decreases w.missiles@.len() - i,
    {
        let m = w.missiles[i];
        proof {
            assert(w.missiles@[i as int].wf());
            w.missiles@.take(i as int).lemma_filter_push(
                w.missiles@[i as int],
                |m: Missile| !player_missile_takes_spec(m, w.powerups@),
            );
            w.missiles@.take(i as int).lemma_filter_push(
                w.missiles@[i as int],
                |m: Missile| player_missile_takes_spec(m, w.powerups@),
            );
            assert(w.missiles@.take(i as int + 1) =~= w.missiles@.take(i as int).push(
                w.missiles@[i as int],
            ));
        }
        if matches!(m.team, Team::Player) && missile_touches_any_powerup(&m, &w.powerups) {
            ev.spawn_explosions.push(
                SpawnExplosion { position: m.pos, team: Team::Player, size_milli: player_mult },
            );
            proof {
                assert(ev.spawn_explosions@ =~= orig_ev.spawn_explosions@ + w.missiles@.take(
                    i as int + 1,
                ).filter(|m: Missile| player_missile_takes_spec(m, w.powerups@)).map_values(
                    |m: Missile| blast_of_missile_spec(m, player_mult),
                ));
            }
        } else {
            kept.push(m);
        }
        i += 1;
    }
    proof {
        assert(w.missiles@.take(w.missiles@.len() as int) =~= w.missiles@);
    }
    let mut kept_p: Vec<Powerup> = Vec::new();
    let mut i: usize = 0;
    while i < w.powerups.len()
        invariant
            i <= w.powerups@.len(),
            *w == orig,
            *ev == (FrameEvents {
                spawn_explosions: ev.spawn_explosions,
                score: ev.score,
                blast_bonus: ev.blast_bonus,
                speed_bonus: ev.speed_bonus,
                sounds: ev.sounds,
                ..orig_ev
            }),
            w.wf(),
            ev.wf(),
            orig_ev.wf(),
            ev.spawn_explosions@ == orig_ev.spawn_explosions@ + w.missiles@.filter(
                |m: Missile| player_missile_takes_spec(m, w.powerups@),
            ).map_values(|m: Missile| blast_of_missile_spec(m, player_mult)),
            ev.score@ == orig_ev.score@ + w.powerups@.take(i as int).filter(
                |p: Powerup| powerup_taken_spec(p, w.missiles@) && p.powerup_type
                    == PowerupType::Score,
            ).map_values(|p: Powerup| UpdateScore(SCORE_POWERUP_VALUE)),
            ev.blast_bonus@ == orig_ev.blast_bonus@ + w.powerups@.take(i as int).filter(
                |p: Powerup| powerup_taken_spec(p, w.missiles@) && p.powerup_type
                    == PowerupType::ExplosionSize,
            ).map_values(|p: Powerup| SetPlayerExplosionSize(BONUS_EXPLOSION_MULT)),
            ev.speed_bonus@ == orig_ev.speed_bonus@ + w.powerups@.take(i as int).filter(
                |p: Powerup| powerup_taken_spec(p, w.missiles@) && p.powerup_type
                    == PowerupType::MissileSpeed,
            ).map_values(|p: Powerup| SetPlayerMissileSpeed(BONUS_MISSILE_SPEED)),
            ev.sounds@ == orig_ev.sounds@ + w.powerups@.take(i as int).filter(
                |p: Powerup| powerup_taken_spec(p, w.missiles@),
            ).map_values(|p: Powerup| PlayAudio { cue: SoundCue::Pickup }),
            kept_p@ == w.powerups@.take(i as int).filter(
                |p: Powerup| !powerup_taken_spec(p, w.missiles@),
            ),
        decreases w.powerups@.len() - i,
    {
        let p = w.powerups[i];
        proof {
            assert(w.powerups@[i as int].wf());
            w.powerups@.take(i as int).lemma_filter_push(
                w.powerups@[i as int],
                |p: Powerup| !powerup_taken_spec(p, w.missiles@),
            );
            w.powerups@.take(i as int).lemma_filter_push(
                w.powerups@[i as int],
                |p: Powerup| powerup_taken_spec(p, w.missiles@),
            );
            w.powerups@.take(i as int).lemma_filter_push(
                w.powerups@[i as int],
                |p: Powerup| powerup_taken_spec(p, w.missiles@) && p.powerup_type
                    == PowerupType::Score,
            );
            w.powerups@.take(i as int).lemma_filter_push(
                w.powerups@[i as int],
                |p: Powerup| powerup_taken_spec(p, w.missiles@) && p.powerup_type
                    == PowerupType::ExplosionSize,
            );
            w.powerups@.take(i as int).lemma_filter_push(
                w.powerups@[i as int],
                |p: Powerup| powerup_taken_spec(p, w.missiles@) && p.powerup_type
                    == PowerupType::MissileSpeed,
            );
            assert(w.powerups@.take(i as int + 1) =~= w.powerups@.take(i as int).push(
                w.powerups@[i as int],
            ));
        }
        if powerup_touched_by_player(&p, &w.missiles) {
            match p.powerup_type {
                PowerupType::Score => {
                    ev.score.push(UpdateScore(SCORE_POWERUP_VALUE));
                },
                PowerupType::ExplosionSize => {
                    ev.blast_bonus.push(SetPlayerExplosionSize(BONUS_EXPLOSION_MULT));
                },
                PowerupType::MissileSpeed => {
                    ev.speed_bonus.push(SetPlayerMissileSpeed(BONUS_MISSILE_SPEED));
                },
            }
            ev.sounds.push(PlayAudio { cue: SoundCue::Pickup });
            proof {
                assert(ev.score@ =~= orig_ev.score@ + w.powerups@.take(i as int + 1).filter(
                    |p: Powerup| powerup_taken_spec(p, w.missiles@) && p.powerup_type
                        == PowerupType::Score,
                ).map_values(|p: Powerup| UpdateScore(SCORE_POWERUP_VALUE)));
                assert(ev.blast_bonus@ =~= orig_ev.blast_bonus@ + w.powerups@.take(
                    i as int + 1,
                ).filter(
                    |p: Powerup| powerup_taken_spec(p, w.missiles@) && p.powerup_type
                        == PowerupType::ExplosionSize,
                ).map_values(|p: Powerup| SetPlayerExplosionSize(BONUS_EXPLOSION_MULT)));
                assert(ev.speed_bonus@ =~= orig_ev.speed_bonus@ + w.powerups@.take(
                    i as int + 1,
                ).filter(
                    |p: Powerup| powerup_taken_spec(p, w.missiles@) && p.powerup_type
                        == PowerupType::MissileSpeed,
                ).map_values(|p: Powerup| SetPlayerMissileSpeed(BONUS_MISSILE_SPEED)));
                assert(ev.sounds@ =~= orig_ev.sounds@ + w.powerups@.take(i as int + 1).filter(
                    |p: Powerup| powerup_taken_spec(p, w.missiles@),
                ).map_values(|p: Powerup| PlayAudio { cue: SoundCue::Pickup }));
            }
        } else {
            kept_p.push(p);
        }
        i += 1;
    }
    proof {
        assert(w.powerups@.take(w.powerups@.len() as int) =~= w.powerups@);
    }
    w.missiles = kept;
    w.powerups = kept_p;
    proof {
        crate::world::lemma_missiles_wf_filter(
            orig.missiles@,
            orig.next_id,
            |m: Missile| !player_missile_takes_spec(m, orig.powerups@),
        );
        crate::world::lemma_powerups_wf_filter(
            orig.powerups@,
            orig.next_id,
            |p: Powerup| !powerup_taken_spec(p, orig.missiles@),
        );
    }
}

/// The four pickup event queues match the filtered pickup prefix.
proof fn lemma_event_seq_exts(
    ev: FrameEvents,
    orig_ev: FrameEvents,
    mid_score: Seq<UpdateScore>,
    prefix: Seq<Powerup>,
    es: Seq<Explosion>,
)
    requires
        ev.score@ =~= mid_score + prefix.filter(
            |p: Powerup| powerup_in_blast_spec(p, es) && p.powerup_type == PowerupType::Score,
        ).map_values(|p: Powerup| UpdateScore(SCORE_POWERUP_VALUE)),
        ev.blast_bonus@ =~= orig_ev.blast_bonus@ + prefix.filter(
            |p: Powerup| powerup_in_blast_spec(p, es) && p.powerup_type
                == PowerupType::ExplosionSize,
        ).map_values(|p: Powerup| SetPlayerExplosionSize(BONUS_EXPLOSION_MULT)),
        ev.speed_bonus@ =~= orig_ev.speed_bonus@ + prefix.filter(
            |p: Powerup| powerup_in_blast_spec(p, es) && p.powerup_type
                == PowerupType::MissileSpeed,
        ).map_values(|p: Powerup| SetPlayerMissileSpeed(BONUS_MISSILE_SPEED)),
        ev.sounds@ =~= orig_ev.sounds@ + prefix.filter(
            |p: Powerup| powerup_in_blast_spec(p, es),
        ).map_values(|p: Powerup| PlayAudio { cue: SoundCue::Pickup }),
    ensures
        ev.score@ == mid_score + prefix.filter(
            |p: Powerup| powerup_in_blast_spec(p, es) && p.powerup_type == PowerupType::Score,
        ).map_values(|p: Powerup| UpdateScore(SCORE_POWERUP_VALUE)),
        ev.blast_bonus@ == orig_ev.blast_bonus@ + prefix.filter(
            |p: Powerup| powerup_in_blast_spec(p, es) && p.powerup_type
                == PowerupType::ExplosionSize,
        ).map_values(|p: Powerup| SetPlayerExplosionSize(BONUS_EXPLOSION_MULT)),
        ev.speed_bonus@ == orig_ev.speed_bonus@ + prefix.filter(
            |p: Powerup| powerup_in_blast_spec(p, es) && p.powerup_type
                == PowerupType::MissileSpeed,
        ).map_values(|p: Powerup| SetPlayerMissileSpeed(BONUS_MISSILE_SPEED)),
        ev.sounds@ == orig_ev.sounds@ + prefix.filter(
            |p: Powerup| powerup_in_blast_spec(p, es),
        ).map_values(|p: Powerup| PlayAudio { cue: SoundCue::Pickup }),
{
}

} // verus!
