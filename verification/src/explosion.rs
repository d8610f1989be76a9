//! Blast volumes.
//!
//! A blast volume opens at full size and shrinks every tick at a fixed
//! rate; its collision radius is recomputed from its size each tick,
//! so the hit volume shrinks in lockstep with the visual. When the
//! size scalar falls below the cutoff the volume despawns
//! unconditionally.

use vstd::prelude::*;

use crate::consts::{
    BASE_EXPLOSION_MULT, EXPLOSION_MIN_SIZE, EXPLOSION_RADIUS, MAX_EXPLOSION_MULT,
};
use crate::events::SpawnExplosion;
use crate::geom;
use crate::geom::Vec2;
use crate::team::Team;
use crate::world::World;

verus! {

/// A decaying blast volume.
#[derive(Clone, Copy, PartialEq, Eq, Structural, Debug)]
pub struct Explosion {
    /// The entity handle.
    pub id: u64,
    /// Centre of the blast (mu).
    pub pos: Vec2,
    /// The side the blast belongs to.
    pub team: Team,
    /// Collision radius at full size (mu); already scaled by the
    /// multiplier the blast was spawned with.
    pub base_radius: i64,
    /// Decaying size scalar in thousandths of full size; falls by one
    /// per elapsed millisecond.
    pub size_milli: u32,
}

impl Explosion {
    pub open spec fn wf(self) -> bool {
        &&& self.pos.in_pos_bounds()
        &&& geom::valid_radius(self.base_radius)
        &&& EXPLOSION_MIN_SIZE <= self.size_milli <= BASE_EXPLOSION_MULT
    }
}

/// The current collision radius of a blast: its base radius scaled by
/// its decaying size.
pub open spec fn explosion_radius_spec(e: Explosion) -> int {
    e.base_radius * e.size_milli / 1000
}

/// Computes the current collision radius of a blast.
pub fn explosion_radius(e: &Explosion) -> (r: i64)
    requires
        e.wf(),
    ensures
        r == explosion_radius_spec(*e),
        geom::valid_radius(r),
{
    proof {
        assert(e.base_radius * e.size_milli <= 1_000_000_000_000) by (nonlinear_arith)
            requires 0 <= e.base_radius <= 1_000_000_000, 0 <= e.size_milli <= 1000;
        vstd::arithmetic::div_mod::lemma_div_is_ordered(
            e.base_radius * e.size_milli,
            1_000_000_000_000,
            1000,
        );
        vstd::arithmetic::div_mod::lemma_div_pos_is_pos(e.base_radius * e.size_milli, 1000);
    }
    ((e.base_radius as u64 * e.size_milli as u64) / 1000) as i64
}

/// The base radius a blast opens with: the full blast radius scaled by
/// the spawn multiplier.
pub open spec fn scaled_base_radius_spec(size_milli: u32) -> int {
    EXPLOSION_RADIUS * size_milli / 1000
}

/// Computes the base radius of a new blast from its multiplier.
pub fn scaled_base_radius(size_milli: u32) -> (r: i64)
    requires
        0 < size_milli <= MAX_EXPLOSION_MULT,
    ensures
        r == scaled_base_radius_spec(size_milli),
        geom::valid_radius(r),
{
    proof {
        vstd::arithmetic::div_mod::lemma_div_is_ordered(
            EXPLOSION_RADIUS * size_milli,
            64_000_000,
            1000,
        );
        vstd::arithmetic::div_mod::lemma_div_pos_is_pos(EXPLOSION_RADIUS * size_milli, 1000);
    }
    ((EXPLOSION_RADIUS as u64 * size_milli as u64) / 1000) as i64
}

/// The blast volume a spawn request opens: full size, with its base
/// radius scaled once by the requested multiplier.
pub open spec fn explosion_of_event_spec(e: SpawnExplosion, id: u64) -> Explosion {
    Explosion {
        id,
        pos: e.position,
        team: e.team,
        base_radius: scaled_base_radius_spec(e.size_milli) as i64,
        size_milli: BASE_EXPLOSION_MULT,
    }
}

/// The blast volumes a queue of spawn requests opens, with ids
/// assigned in order starting at `base_id`.
pub open spec fn spawned_explosions_spec(evs: Seq<SpawnExplosion>, base_id: u64) -> Seq<Explosion>
    decreases evs.len(),
{
    if evs.len() == 0 {
        Seq::empty()
    } else {
        spawned_explosions_spec(evs.drop_last(), base_id).push(
            explosion_of_event_spec(evs.last(), (base_id + evs.len() - 1) as u64),
        )
    }
}

proof fn lemma_spawned_explosions_push(evs: Seq<SpawnExplosion>, e: SpawnExplosion, base_id: u64)
    ensures
        spawned_explosions_spec(evs.push(e), base_id) == spawned_explosions_spec(
            evs,
            base_id,
        ).push(explosion_of_event_spec(e, (base_id + evs.len()) as u64)),
{
    assert(evs.push(e).drop_last() =~= evs);
    assert(evs.push(e).last() == e);
}

/// Applies queued blast requests: each opens one full-size volume at
/// its requested position, team-tagged and scaled by its multiplier.
pub fn spawn_explosions(w: &mut World, evs: &Vec<SpawnExplosion>)
    requires
        old(w).wf(),
        forall|i: int| 0 <= i < evs@.len() ==> #[trigger] evs@[i].wf(),
        old(w).next_id + evs@.len() <= u64::MAX,
    ensures
        final(w).wf(),
        *final(w) == (World {
            next_id: final(w).next_id,
            explosions: final(w).explosions,
            ..*old(w)
        }),
        final(w).explosions@ == old(w).explosions@ + spawned_explosions_spec(
            evs@,
            old(w).next_id,
        ),
        final(w).next_id == old(w).next_id + evs@.len(),
{
    let ghost orig = *w;
    let mut i: usize = 0;
    while i < evs.len()
        invariant
            i <= evs@.len(),
            w.wf(),
            orig.wf(),
            forall|k: int| 0 <= k < evs@.len() ==> #[trigger] evs@[k].wf(),
            orig.next_id + evs@.len() <= u64::MAX,
            *w == (World { next_id: w.next_id, explosions: w.explosions, ..orig }),
            w.explosions@ == orig.explosions@ + spawned_explosions_spec(
                evs@.take(i as int),
                orig.next_id,
            ),
            w.next_id == orig.next_id + i,
        decreases evs@.len() - i,
    {
        let e = evs[i];
        proof {
            assert(e.wf());
            assert(evs@.take(i as int + 1) =~= evs@.take(i as int).push(evs@[i as int]));
            lemma_spawned_explosions_push(evs@.take(i as int), e, orig.next_id);
        }
        let id = w.peek_id();
        let base = scaled_base_radius(e.size_milli);
        w.push_explosion(
            Explosion {
                id,
                pos: e.position,
                team: e.team,
                base_radius: base,
                size_milli: BASE_EXPLOSION_MULT,
            },
        );
        i += 1;
    }
    proof {
        assert(evs@.take(evs@.len() as int) =~= evs@);
    }
}

/// Blast decay is strictly monotone: across any tick of nonzero
/// elapsed time, a surviving blast's size scalar is strictly smaller
/// than before, and its collision radius tracks the size exactly —
/// the base radius scaled by the current size — so the hit volume
/// shrinks in lockstep until the cutoff despawns the volume.
pub proof fn lemma_blast_decay_monotone(e: Explosion, dt: u64)
    requires
        e.wf(),
        dt >= 1,
    ensures
        explosion_alive_spec(decay_explosion_spec(e, dt)) ==> decay_explosion_spec(
            e,
            dt,
        ).size_milli < e.size_milli,
        explosion_radius_spec(decay_explosion_spec(e, dt)) == e.base_radius
            * decay_explosion_spec(e, dt).size_milli / 1000,
        explosion_radius_spec(decay_explosion_spec(e, dt)) <= explosion_radius_spec(e),
{
    let d = decay_explosion_spec(e, dt);
    vstd::arithmetic::mul::lemma_mul_inequality(
        d.size_milli as int,
        e.size_milli as int,
        e.base_radius as int,
    );
    vstd::arithmetic::div_mod::lemma_div_is_ordered(
        e.base_radius * d.size_milli,
        e.base_radius * e.size_milli,
        1000,
    );
    assert(d.size_milli * e.base_radius == e.base_radius * d.size_milli
        && e.size_milli * e.base_radius == e.base_radius * e.size_milli) by (nonlinear_arith);
}

/// A blast after `dt` milliseconds of decay: the size scalar falls by
/// one per millisecond, not below zero.
pub open spec fn decay_explosion_spec(e: Explosion, dt: u64) -> Explosion {
    Explosion {
        size_milli: if dt >= e.size_milli {
            0
        } else {
            (e.size_milli - dt) as u32
        },
        ..e
    }
}

/// Whether a decayed blast is still above the despawn cutoff.
pub open spec fn explosion_alive_spec(e: Explosion) -> bool {
    e.size_milli >= EXPLOSION_MIN_SIZE
}

/// Shrinks every blast volume by the elapsed time and despawns every
/// volume whose size scalar has fallen below the cutoff — a hard
/// cutoff, applied unconditionally. The collision radius is derived
/// from the size, so the hit volume shrinks in lockstep.
pub fn update_explosions(w: &mut World, dt: u64)
    requires
        old(w).wf(),
        dt <= crate::consts::DT_LIMIT,
    ensures
        final(w).wf(),
        *final(w) == (World { explosions: final(w).explosions, ..*old(w) }),
        final(w).explosions@ == old(w).explosions@.map_values(
            |e: Explosion| decay_explosion_spec(e, dt),
        ).filter(|e: Explosion| explosion_alive_spec(e)),
{
    let ghost orig = *w;
    let ghost decayed = orig.explosions@.map_values(|e: Explosion| decay_explosion_spec(e, dt));
    let mut kept: Vec<Explosion> = Vec::new();
    let mut i: usize = 0;
    while i < w.explosions.len()
        invariant
            i <= w.explosions@.len(),
            *w == orig,
            w.wf(),
            dt <= crate::consts::DT_LIMIT,
            decayed == orig.explosions@.map_values(|e: Explosion| decay_explosion_spec(e, dt)),
            kept@ == decayed.take(i as int).filter(|e: Explosion| explosion_alive_spec(e)),
        decreases w.explosions@.len() - i,
    {
        let mut e = w.explosions[i];
        proof {
            decayed.take(i as int).lemma_filter_push(
                decayed[i as int],
                |e: Explosion| explosion_alive_spec(e),
            );
            assert(decayed.take(i as int + 1) =~= decayed.take(i as int).push(decayed[i as int]));
        }
        if dt >= e.size_milli as u64 {
            e.size_milli = 0;
        } else {
            e.size_milli = e.size_milli - dt as u32;
        }
        proof {
            assert(e == decayed[i as int]);
        }
        if e.size_milli >= EXPLOSION_MIN_SIZE {
            kept.push(e);
        }
        i += 1;
    }
    proof {
        assert(decayed.take(decayed.len() as int) =~= decayed);
    }
    w.explosions = kept;
    proof {
        assert forall|k: int| 0 <= k < decayed.len() implies (#[trigger] decayed[k]).id
            == orig.explosions@[k].id && decayed[k].pos == orig.explosions@[k].pos
            && decayed[k].base_radius == orig.explosions@[k].base_radius && decayed[k].size_milli
            <= orig.explosions@[k].size_milli by {
            assert(orig.explosions@[k].wf());
        }
        assert forall|k: int|
            0 <= k < decayed.len() implies ((|e: Explosion| explosion_alive_spec(e) ==> (e.wf()
            && e.id < orig.next_id))(#[trigger] decayed[k])) by {
            assert(orig.explosions@[k].wf());
        }
        crate::world::lemma_filter_preserves_all(
            decayed,
            |e: Explosion| explosion_alive_spec(e),
            |e: Explosion| explosion_alive_spec(e) ==> (e.wf() && e.id < orig.next_id),
        );
        assert(crate::world::distinct_by(decayed, |e: Explosion| e.id)) by {
            assert forall|i: int, j: int|
                0 <= i < j < decayed.len() implies (|e: Explosion| e.id)(decayed[i]) != (
            |e: Explosion| e.id)(decayed[j]) by {
                assert((|e: Explosion| e.id)(orig.explosions@[i]) != (|e: Explosion| e.id)(
                    orig.explosions@[j],
                ));
            }
        }
        crate::world::lemma_filter_distinct_by(
            decayed,
            |e: Explosion| explosion_alive_spec(e),
            |e: Explosion| e.id,
        );
        assert forall|k: int|
            0 <= k < w.explosions@.len() implies ((#[trigger] w.explosions@[k]).wf()
            && w.explosions@[k].id < w.next_id) by {
            decayed.lemma_filter_pred(|e: Explosion| explosion_alive_spec(e), k);
        }
    }
}

} // verus!
