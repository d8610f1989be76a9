//! The entity world.
//!
//! Entities live in per-kind tables and are identified by an opaque
//! handle, unique across the world and handed out by a monotone
//! counter. A despawn aimed at a handle that is already gone is a
//! no-op, never an error, and a despawn never touches an entity other
//! than the one named: stale handles are the normal outcome of two
//! collision rules resolving the same entity in one pass.

use vstd::prelude::*;

use crate::consts::{DT_LIMIT, POS_LIMIT};
use crate::debris::Debris;
use crate::explosion::Explosion;
use crate::geom;
use crate::geom::Vec2;
use crate::missile::Missile;
use crate::powerups::Powerup;
use crate::silo::Silo;

verus! {

/// A destructible building; its destruction count gates game over.
#[derive(Clone, Copy, PartialEq, Eq, Structural, Debug)]
pub struct Building {
    /// The entity handle.
    pub id: u64,
    /// Where the building stands (mu).
    pub pos: Vec2,
}

impl Building {
    pub open spec fn wf(self) -> bool {
        self.pos.in_pos_bounds()
    }
}

/// No two elements share the key `f` extracts.
pub open spec fn distinct_by<A>(s: Seq<A>, f: spec_fn(A) -> u64) -> bool {
    forall|i: int, j: int| 0 <= i < j < s.len() ==> f(s[i]) != f(s[j])
}

/// Filtering keeps every element satisfying a pointwise property.
pub proof fn lemma_filter_preserves_all<A>(s: Seq<A>, pred: spec_fn(A) -> bool, p: spec_fn(A) -> bool)
    requires
        forall|i: int| 0 <= i < s.len() ==> p(#[trigger] s[i]),
    ensures
        forall|i: int| 0 <= i < s.filter(pred).len() ==> p(#[trigger] s.filter(pred)[i]),
{
    let out = s.filter(pred);
    assert forall|i: int| 0 <= i < out.len() implies p(out[i]) by {
        assert(out.contains(out[i]));
        s.lemma_filter_contains_rev(pred, out[i]);
        let k = choose|k: int| 0 <= k < s.len() && s[k] == out[i];
        assert(p(s[k]));
    }
}

/// Filtering keeps keys distinct.
pub proof fn lemma_filter_distinct_by<A>(s: Seq<A>, pred: spec_fn(A) -> bool, f: spec_fn(A) -> u64)
    requires
        distinct_by(s, f),
    ensures
        distinct_by(s.filter(pred), f),
    decreases s.len(),
{
    reveal(Seq::filter);
    if s.len() == 0 {
    } else {
        let rest = s.drop_last();
        assert(distinct_by(rest, f)) by {
            assert forall|i: int, j: int| 0 <= i < j < rest.len() implies f(rest[i]) != f(
                rest[j],
            ) by {
                assert(f(s[i]) != f(s[j]));
            }
        }
        lemma_filter_distinct_by(rest, pred, f);
        if pred(s.last()) {
            let out = rest.filter(pred).push(s.last());
            assert forall|i: int, j: int| 0 <= i < j < out.len() implies f(out[i]) != f(out[j]) by {
                if j < out.len() - 1 {
                    assert(f(rest.filter(pred)[i]) != f(rest.filter(pred)[j]));
                } else {
                    assert(out[i] == rest.filter(pred)[i]);
                    assert(rest.filter(pred).contains(rest.filter(pred)[i]));
                    rest.lemma_filter_contains_rev(pred, rest.filter(pred)[i]);
                    let k = choose|k: int| 0 <= k < rest.len() && rest[k] == rest.filter(pred)[i];
                    assert(f(s[k]) != f(s[s.len() - 1]));
                }
            }
        }
    }
}

/// Filtering keeps a sequence whose elements all pass untouched.
pub proof fn lemma_filter_all_true<A>(s: Seq<A>, pred: spec_fn(A) -> bool)
    requires
        forall|i: int| 0 <= i < s.len() ==> pred(#[trigger] s[i]),
    ensures
        s.filter(pred) == s,
    decreases s.len(),
{
    reveal(Seq::filter);
    if s.len() == 0 {
        assert(s.filter(pred) =~= s);
    } else {
        let rest = s.drop_last();
        assert forall|i: int| 0 <= i < rest.len() implies pred(#[trigger] rest[i]) by {
            assert(pred(s[i]));
        }
        lemma_filter_all_true(rest, pred);
        assert(s.filter(pred) =~= s);
    }
}

/// Despawning is idempotent and touches no unrelated entity: aiming a
/// despawn at a handle that no entry carries leaves the table exactly
/// as it was, and whatever the handle, every entry with a different
/// handle survives and no entry with a different handle appears.
pub proof fn lemma_despawn_stale_handle(s: Seq<Missile>, id: u64)
    ensures
        (forall|i: int| 0 <= i < s.len() ==> (#[trigger] s[i]).id != id) ==> s.filter(
            |m: Missile| m.id != id,
        ) == s,
        forall|m: Missile|
            #![trigger s.contains(m)]
            m.id != id ==> (s.filter(|m: Missile| m.id != id).contains(m) <==> s.contains(m)),
        s.filter(|m: Missile| m.id != id).filter(|m: Missile| m.id != id) == s.filter(
            |m: Missile| m.id != id,
        ),
{
    let pred = |m: Missile| m.id != id;
    let out = s.filter(pred);
    if forall|i: int| 0 <= i < s.len() ==> (#[trigger] s[i]).id != id {
        lemma_filter_all_true(s, pred);
    }
    assert forall|m: Missile| m.id != id implies (#[trigger] out.contains(m) <==> s.contains(
        m,
    )) by {
        if out.contains(m) {
            s.lemma_filter_contains_rev(pred, m);
        }
        if s.contains(m) {
            let k = choose|k: int| 0 <= k < s.len() && s[k] == m;
            s.lemma_filter_contains(pred, k);
        }
    }
    assert forall|i: int| 0 <= i < out.len() implies pred(#[trigger] out[i]) by {
        s.lemma_filter_pred(pred, i);
    }
    lemma_filter_all_true(out, pred);
}

/// Well-formed projectile table: entries valid, handles fresh-bounded
/// and distinct.
pub open spec fn missiles_wf(s: Seq<Missile>, bound: u64) -> bool {
    &&& forall|i: int| 0 <= i < s.len() ==> (#[trigger] s[i]).wf() && s[i].id < bound
    &&& distinct_by(s, |m: Missile| m.id)
}

/// Well-formed blast table.
pub open spec fn explosions_wf(s: Seq<Explosion>, bound: u64) -> bool {
    &&& forall|i: int| 0 <= i < s.len() ==> (#[trigger] s[i]).wf() && s[i].id < bound
    &&& distinct_by(s, |e: Explosion| e.id)
}

/// Well-formed building table.
pub open spec fn buildings_wf(s: Seq<Building>, bound: u64) -> bool {
    &&& forall|i: int| 0 <= i < s.len() ==> (#[trigger] s[i]).wf() && s[i].id < bound
    &&& distinct_by(s, |b: Building| b.id)
}

/// Well-formed installation table: also one installation per slot.
pub open spec fn silos_wf(s: Seq<Silo>, bound: u64) -> bool {
    &&& forall|i: int| 0 <= i < s.len() ==> (#[trigger] s[i]).wf() && s[i].id < bound
    &&& distinct_by(s, |x: Silo| x.id)
    &&& forall|i: int, j: int| 0 <= i < j < s.len() ==> s[i].location != s[j].location
}

/// Well-formed pickup table.
pub open spec fn powerups_wf(s: Seq<Powerup>, bound: u64) -> bool {
    &&& forall|i: int| 0 <= i < s.len() ==> (#[trigger] s[i]).wf() && s[i].id < bound
    &&& distinct_by(s, |p: Powerup| p.id)
}

/// Well-formed debris table.
pub open spec fn debris_wf(s: Seq<Debris>, bound: u64) -> bool {
    &&& forall|i: int| 0 <= i < s.len() ==> (#[trigger] s[i]).wf() && s[i].id < bound
    &&& distinct_by(s, |d: Debris| d.id)
}

/// A filtered projectile table stays well-formed.
pub proof fn lemma_missiles_wf_filter(s: Seq<Missile>, bound: u64, pred: spec_fn(Missile) -> bool)
    requires
        missiles_wf(s, bound),
    ensures
        missiles_wf(s.filter(pred), bound),
{
    lemma_filter_preserves_all(s, pred, |m: Missile| m.wf() && m.id < bound);
    lemma_filter_distinct_by(s, pred, |m: Missile| m.id);
}

/// A filtered blast table stays well-formed.
pub proof fn lemma_explosions_wf_filter(
    s: Seq<Explosion>,
    bound: u64,
    pred: spec_fn(Explosion) -> bool,
)
    requires
        explosions_wf(s, bound),
    ensures
        explosions_wf(s.filter(pred), bound),
{
    lemma_filter_preserves_all(s, pred, |e: Explosion| e.wf() && e.id < bound);
    lemma_filter_distinct_by(s, pred, |e: Explosion| e.id);
}

/// A filtered building table stays well-formed.
pub proof fn lemma_buildings_wf_filter(
    s: Seq<Building>,
    bound: u64,
    pred: spec_fn(Building) -> bool,
)
    requires
        buildings_wf(s, bound),
    ensures
        buildings_wf(s.filter(pred), bound),
{
    lemma_filter_preserves_all(s, pred, |b: Building| b.wf() && b.id < bound);
    lemma_filter_distinct_by(s, pred, |b: Building| b.id);
}

/// A filtered installation table stays well-formed.
pub proof fn lemma_silos_wf_filter(s: Seq<Silo>, bound: u64, pred: spec_fn(Silo) -> bool)
    requires
        silos_wf(s, bound),
    ensures
        silos_wf(s.filter(pred), bound),
{
    lemma_filter_preserves_all(s, pred, |x: Silo| x.wf() && x.id < bound);
    lemma_filter_distinct_by(s, pred, |x: Silo| x.id);
    lemma_silo_locations_filter(s, pred);
}

/// A filtered pickup table stays well-formed.
pub proof fn lemma_powerups_wf_filter(s: Seq<Powerup>, bound: u64, pred: spec_fn(Powerup) -> bool)
    requires
        powerups_wf(s, bound),
    ensures
        powerups_wf(s.filter(pred), bound),
{
    lemma_filter_preserves_all(s, pred, |p: Powerup| p.wf() && p.id < bound);
    lemma_filter_distinct_by(s, pred, |p: Powerup| p.id);
}

/// The world as mathematics: the handle counter and one sequence per
/// entity kind. Contracts that compose several passes speak of this
/// model rather than of the executable tables.
#[verifier::ext_equal]
pub struct WorldModel {
    pub next_id: int,
    pub missiles: Seq<Missile>,
    pub explosions: Seq<Explosion>,
    pub buildings: Seq<Building>,
    pub silos: Seq<Silo>,
    pub powerups: Seq<Powerup>,
    pub debris: Seq<Debris>,
}

/// The simulation world: every live entity, by kind.
#[derive(Clone, Debug)]
pub struct World {
    /// The next handle to hand out; greater than every live handle.
    pub next_id: u64,
    pub missiles: Vec<Missile>,
    pub explosions: Vec<Explosion>,
    pub buildings: Vec<Building>,
    pub silos: Vec<Silo>,
    pub powerups: Vec<Powerup>,
    pub debris: Vec<Debris>,
}

impl World {
    /// The mathematical view of the world.
    pub open spec fn model(self) -> WorldModel {
        WorldModel {
            next_id: self.next_id as int,
            missiles: self.missiles@,
            explosions: self.explosions@,
            buildings: self.buildings@,
            silos: self.silos@,
            powerups: self.powerups@,
            debris: self.debris@,
        }
    }

    pub open spec fn wf(self) -> bool {
        &&& missiles_wf(self.missiles@, self.next_id)
        &&& explosions_wf(self.explosions@, self.next_id)
        &&& buildings_wf(self.buildings@, self.next_id)
        &&& silos_wf(self.silos@, self.next_id)
        &&& powerups_wf(self.powerups@, self.next_id)
        &&& debris_wf(self.debris@, self.next_id)
    }

    /// An empty world.
    pub fn new() -> (w: World)
        ensures
            w.wf(),
            w.next_id == 0,
            w.missiles@.len() == 0,
            w.explosions@.len() == 0,
            w.buildings@.len() == 0,
            w.silos@.len() == 0,
            w.powerups@.len() == 0,
            w.debris@.len() == 0,
    {
        World {
            next_id: 0,
            missiles: Vec::new(),
            explosions: Vec::new(),
            buildings: Vec::new(),
            silos: Vec::new(),
            powerups: Vec::new(),
            debris: Vec::new(),
        }
    }

    /// The handle the next spawned entity will carry.
    pub fn peek_id(&self) -> (id: u64)
        ensures
            id == self.next_id,
    {
        self.next_id
    }

    /// Bumping the handle counter keeps the world well-formed.
    pub proof fn lemma_bump_next_id_wf(&self)
        requires
            self.wf(),
            self.next_id < u64::MAX,
        ensures
            (World { next_id: (self.next_id + 1) as u64, ..*self }).wf(),
    {
    }

    /// Adds a projectile under the next fresh handle.
    pub fn push_missile(&mut self, m: Missile)
        requires
            old(self).wf(),
            m.wf(),
            m.id == old(self).next_id,
            old(self).next_id < u64::MAX,
        ensures
            final(self).wf(),
            final(self).missiles@ == old(self).missiles@.push(m),
            final(self).next_id == old(self).next_id + 1,
            *final(self) == (World {
                next_id: final(self).next_id,
                missiles: final(self).missiles,
                ..*old(self)
            }),
    {
        self.missiles.push(m);
        self.next_id = self.next_id + 1;
    }

    /// Adds a blast volume under the next fresh handle.
    pub fn push_explosion(&mut self, e: Explosion)
        requires
            old(self).wf(),
            e.wf(),
            e.id == old(self).next_id,
            old(self).next_id < u64::MAX,
        ensures
            final(self).wf(),
            final(self).explosions@ == old(self).explosions@.push(e),
            final(self).next_id == old(self).next_id + 1,
            *final(self) == (World {
                next_id: final(self).next_id,
                explosions: final(self).explosions,
                ..*old(self)
            }),
    {
        self.explosions.push(e);
        self.next_id = self.next_id + 1;
    }

    /// Adds a pickup under the next fresh handle.
    pub fn push_powerup(&mut self, p: Powerup)
        requires
            old(self).wf(),
            p.wf(),
            p.id == old(self).next_id,
            old(self).next_id < u64::MAX,
        ensures
            final(self).wf(),
            final(self).powerups@ == old(self).powerups@.push(p),
            final(self).next_id == old(self).next_id + 1,
            *final(self) == (World {
                next_id: final(self).next_id,
                powerups: final(self).powerups,
                ..*old(self)
            }),
    {
        self.powerups.push(p);
        self.next_id = self.next_id + 1;
    }

    /// Adds debris under the next fresh handle.
    pub fn push_debris(&mut self, d: Debris)
        requires
            old(self).wf(),
            d.wf(),
            d.id == old(self).next_id,
            old(self).next_id < u64::MAX,
        ensures
            final(self).wf(),
            final(self).debris@ == old(self).debris@.push(d),
            final(self).next_id == old(self).next_id + 1,
            *final(self) == (World {
                next_id: final(self).next_id,
                debris: final(self).debris,
                ..*old(self)
            }),
    {
        self.debris.push(d);
        self.next_id = self.next_id + 1;
    }

    /// Adds a building under the next fresh handle.
    pub fn push_building(&mut self, b: Building)
        requires
            old(self).wf(),
            b.wf(),
            b.id == old(self).next_id,
            old(self).next_id < u64::MAX,
        ensures
            final(self).wf(),
            final(self).buildings@ == old(self).buildings@.push(b),
            final(self).next_id == old(self).next_id + 1,
            *final(self) == (World {
                next_id: final(self).next_id,
                buildings: final(self).buildings,
                ..*old(self)
            }),
    {
        self.buildings.push(b);
        self.next_id = self.next_id + 1;
    }

    /// Adds an installation under the next fresh handle; its slot must
    /// be free.
    pub fn push_silo(&mut self, s: Silo)
        requires
            old(self).wf(),
            s.wf(),
            s.id == old(self).next_id,
            old(self).next_id < u64::MAX,
            forall|i: int|
                0 <= i < old(self).silos@.len() ==> (#[trigger] old(self).silos@[i]).location
                    != s.location,
        ensures
            final(self).wf(),
            final(self).silos@ == old(self).silos@.push(s),
            final(self).next_id == old(self).next_id + 1,
            *final(self) == (World {
                next_id: final(self).next_id,
                silos: final(self).silos,
                ..*old(self)
            }),
    {
        self.silos.push(s);
        self.next_id = self.next_id + 1;
    }

    /// Removes the entity carrying the given handle, whatever its
    /// kind. A handle no longer present — stale after an earlier
    /// removal, or never issued — leaves the world exactly as it was:
    /// despawning is idempotent and touches nothing else.
    pub fn despawn(&mut self, id: u64)
        requires
            old(self).wf(),
        ensures
            final(self).wf(),
            final(self).next_id == old(self).next_id,
            final(self).missiles@ == old(self).missiles@.filter(|m: Missile| m.id != id),
            final(self).explosions@ == old(self).explosions@.filter(|e: Explosion| e.id != id),
            final(self).buildings@ == old(self).buildings@.filter(|b: Building| b.id != id),
            final(self).silos@ == old(self).silos@.filter(|s: Silo| s.id != id),
            final(self).powerups@ == old(self).powerups@.filter(|p: Powerup| p.id != id),
            final(self).debris@ == old(self).debris@.filter(|d: Debris| d.id != id),
    {
        let ghost orig = *self;
        let mut missiles: Vec<Missile> = Vec::new();
        let mut i: usize = 0;
        while i < self.missiles.len()
            invariant
                *self == orig,
                i <= self.missiles@.len(),
                missiles@ == self.missiles@.take(i as int).filter(|m: Missile| m.id != id),
            decreases self.missiles@.len() - i,
        {
            let m = self.missiles[i];
            proof {
                self.missiles@.take(i as int).lemma_filter_push(
                    self.missiles@[i as int],
                    |m: Missile| m.id != id,
                );
                assert(self.missiles@.take(i as int + 1) =~= self.missiles@.take(i as int).push(
                    self.missiles@[i as int],
                ));
            }
            if m.id != id {
                missiles.push(m);
            }
            i += 1;
        }
        let mut explosions: Vec<Explosion> = Vec::new();
        let mut i: usize = 0;
        while i < self.explosions.len()
            invariant
                *self == orig,
                i <= self.explosions@.len(),
                explosions@ == self.explosions@.take(i as int).filter(|e: Explosion| e.id != id),
            decreases self.explosions@.len() - i,
        {
            let e = self.explosions[i];
            proof {
                self.explosions@.take(i as int).lemma_filter_push(
                    self.explosions@[i as int],
                    |e: Explosion| e.id != id,
                );
                assert(self.explosions@.take(i as int + 1) =~= self.explosions@.take(
                    i as int,
                ).push(self.explosions@[i as int]));
            }
            if e.id != id {
                explosions.push(e);
            }
            i += 1;
        }
        let mut buildings: Vec<Building> = Vec::new();
        let mut i: usize = 0;
        while i < self.buildings.len()
            invariant
                *self == orig,
                i <= self.buildings@.len(),
                buildings@ == self.buildings@.take(i as int).filter(|b: Building| b.id != id),
            decreases self.buildings@.len() - i,
        {
            let b = self.buildings[i];
            proof {
                self.buildings@.take(i as int).lemma_filter_push(
                    self.buildings@[i as int],
                    |b: Building| b.id != id,
                );
                assert(self.buildings@.take(i as int + 1) =~= self.buildings@.take(i as int).push(
                    self.buildings@[i as int],
                ));
            }
            if b.id != id {
                buildings.push(b);
            }
            i += 1;
        }
        let mut silos: Vec<Silo> = Vec::new();
        let mut i: usize = 0;
        while i < self.silos.len()
            invariant
                *self == orig,
                i <= self.silos@.len(),
                silos@ == self.silos@.take(i as int).filter(|s: Silo| s.id != id),
            decreases self.silos@.len() - i,
        {
            let s = self.silos[i];
            proof {
                self.silos@.take(i as int).lemma_filter_push(
                    self.silos@[i as int],
                    |s: Silo| s.id != id,
                );
                assert(self.silos@.take(i as int + 1) =~= self.silos@.take(i as int).push(
                    self.silos@[i as int],
                ));
            }
            if s.id != id {
                silos.push(s);
            }
            i += 1;
        }
        let mut powerups: Vec<Powerup> = Vec::new();
        let mut i: usize = 0;
        while i < self.powerups.len()
            invariant
                *self == orig,
                i <= self.powerups@.len(),
                powerups@ == self.powerups@.take(i as int).filter(|p: Powerup| p.id != id),
            decreases self.powerups@.len() - i,
        {
            let p = self.powerups[i];
            proof {
                self.powerups@.take(i as int).lemma_filter_push(
                    self.powerups@[i as int],
                    |p: Powerup| p.id != id,
                );
                assert(self.powerups@.take(i as int + 1) =~= self.powerups@.take(i as int).push(
                    self.powerups@[i as int],
                ));
            }
            if p.id != id {
                powerups.push(p);
            }
            i += 1;
        }
        let mut debris: Vec<Debris> = Vec::new();
        let mut i: usize = 0;
        while i < self.debris.len()
            invariant
                *self == orig,
                i <= self.debris@.len(),
                debris@ == self.debris@.take(i as int).filter(|d: Debris| d.id != id),
            decreases self.debris@.len() - i,
        {
            let d = self.debris[i];
            proof {
                self.debris@.take(i as int).lemma_filter_push(
                    self.debris@[i as int],
                    |d: Debris| d.id != id,
                );
                assert(self.debris@.take(i as int + 1) =~= self.debris@.take(i as int).push(
                    self.debris@[i as int],
                ));
            }
            if d.id != id {
                debris.push(d);
            }
            i += 1;
        }
        proof {
            assert(self.missiles@.take(self.missiles@.len() as int) =~= self.missiles@);
            assert(self.explosions@.take(self.explosions@.len() as int) =~= self.explosions@);
            assert(self.buildings@.take(self.buildings@.len() as int) =~= self.buildings@);
            assert(self.silos@.take(self.silos@.len() as int) =~= self.silos@);
            assert(self.powerups@.take(self.powerups@.len() as int) =~= self.powerups@);
            assert(self.debris@.take(self.debris@.len() as int) =~= self.debris@);
        }
        self.missiles = missiles;
        self.explosions = explosions;
        self.buildings = buildings;
        self.silos = silos;
        self.powerups = powerups;
        self.debris = debris;
        proof {
            self.lemma_filters_keep_wf(orig, id);
        }
    }

    /// Every per-kind table filtered by handle stays well-formed.
    proof fn lemma_filters_keep_wf(&self, orig: World, id: u64)
        requires
            orig.wf(),
            self.next_id == orig.next_id,
            self.missiles@ == orig.missiles@.filter(|m: Missile| m.id != id),
            self.explosions@ == orig.explosions@.filter(|e: Explosion| e.id != id),
            self.buildings@ == orig.buildings@.filter(|b: Building| b.id != id),
            self.silos@ == orig.silos@.filter(|s: Silo| s.id != id),
            self.powerups@ == orig.powerups@.filter(|p: Powerup| p.id != id),
            self.debris@ == orig.debris@.filter(|d: Debris| d.id != id),
        ensures
            self.wf(),
    {
        let b = orig.next_id;
        lemma_filter_preserves_all(
            orig.missiles@,
            |m: Missile| m.id != id,
            |m: Missile| m.wf() && m.id < b,
        );
        lemma_filter_distinct_by(orig.missiles@, |m: Missile| m.id != id, |m: Missile| m.id);
        lemma_filter_preserves_all(
            orig.explosions@,
            |e: Explosion| e.id != id,
            |e: Explosion| e.wf() && e.id < b,
        );
        lemma_filter_distinct_by(orig.explosions@, |e: Explosion| e.id != id, |e: Explosion| e.id);
        lemma_filter_preserves_all(
            orig.buildings@,
            |x: Building| x.id != id,
            |x: Building| x.wf() && x.id < b,
        );
        lemma_filter_distinct_by(orig.buildings@, |x: Building| x.id != id, |x: Building| x.id);
        lemma_filter_preserves_all(
            orig.silos@,
            |s: Silo| s.id != id,
            |s: Silo| s.wf() && s.id < b,
        );
        lemma_filter_distinct_by(orig.silos@, |s: Silo| s.id != id, |s: Silo| s.id);
        lemma_silo_locations_filter(orig.silos@, |s: Silo| s.id != id);
        lemma_filter_preserves_all(
            orig.powerups@,
            |p: Powerup| p.id != id,
            |p: Powerup| p.wf() && p.id < b,
        );
        lemma_filter_distinct_by(orig.powerups@, |p: Powerup| p.id != id, |p: Powerup| p.id);
        lemma_filter_preserves_all(
            orig.debris@,
            |d: Debris| d.id != id,
            |d: Debris| d.wf() && d.id < b,
        );
        lemma_filter_distinct_by(orig.debris@, |d: Debris| d.id != id, |d: Debris| d.id);
    }

    /// Advances every moving entity — projectiles and pickups — by its
    /// velocity times the elapsed time. No clamping and no bounds
    /// checks here: leaving the playfield is the owning lifecycle's
    /// concern.
    pub fn apply_velocity(&mut self, dt: u64)
        requires
            old(self).wf(),
            dt <= DT_LIMIT,
        ensures
            final(self).wf(),
            *final(self) == (World {
                missiles: final(self).missiles,
                powerups: final(self).powerups,
                ..*old(self)
            }),
            final(self).missiles@.len() == old(self).missiles@.len(),
            forall|i: int|
                0 <= i < old(self).missiles@.len() ==> final(self).missiles@[i] == (Missile {
                    pos: geom::step_pos_spec(
                        (#[trigger] old(self).missiles@[i]).pos,
                        old(self).missiles@[i].vel,
                        dt as int,
                    ),
                    ..old(self).missiles@[i]
                }),
            final(self).powerups@.len() == old(self).powerups@.len(),
            forall|i: int|
                0 <= i < old(self).powerups@.len() ==> final(self).powerups@[i] == (Powerup {
                    pos: geom::step_pos_spec(
                        (#[trigger] old(self).powerups@[i]).pos,
                        old(self).powerups@[i].vel,
                        dt as int,
                    ),
                    ..old(self).powerups@[i]
                }),
    {
        let ghost orig = *self;
        let mut i: usize = 0;
        while i < self.missiles.len()
            invariant
                i <= self.missiles@.len(),
                dt <= DT_LIMIT,
                orig.wf(),
                *self == (World { missiles: self.missiles, ..orig }),
                self.missiles@.len() == orig.missiles@.len(),
                forall|k: int| i <= k < orig.missiles@.len() ==> self.missiles@[k] == orig.missiles@[k],
                forall|k: int|
                    0 <= k < i ==> self.missiles@[k] == (Missile {
                        pos: geom::step_pos_spec(
                            (#[trigger] orig.missiles@[k]).pos,
                            orig.missiles@[k].vel,
                            dt as int,
                        ),
                        ..orig.missiles@[k]
                    }),
            decreases self.missiles@.len() - i,
        {
            let mut m = self.missiles[i];
            proof {
                assert(orig.missiles@[i as int].wf());
            }
            m.pos = geom::step_pos(m.pos, m.vel, dt);
            self.missiles.set(i, m);
            i += 1;
        }
        let mut i: usize = 0;
        while i < self.powerups.len()
            invariant
                i <= self.powerups@.len(),
                dt <= DT_LIMIT,
                orig.wf(),
                *self == (World { missiles: self.missiles, powerups: self.powerups, ..orig }),
                self.missiles@.len() == orig.missiles@.len(),
                forall|k: int|
                    0 <= k < orig.missiles@.len() ==> self.missiles@[k] == (Missile {
                        pos: geom::step_pos_spec(
                            (#[trigger] orig.missiles@[k]).pos,
                            orig.missiles@[k].vel,
                            dt as int,
                        ),
                        ..orig.missiles@[k]
                    }),
                self.powerups@.len() == orig.powerups@.len(),
                forall|k: int| i <= k < orig.powerups@.len() ==> self.powerups@[k] == orig.powerups@[k],
                forall|k: int|
                    0 <= k < i ==> self.powerups@[k] == (Powerup {
                        pos: geom::step_pos_spec(
                            (#[trigger] orig.powerups@[k]).pos,
                            orig.powerups@[k].vel,
                            dt as int,
                        ),
                        ..orig.powerups@[k]
                    }),
            decreases self.powerups@.len() - i,
        {
            let mut p = self.powerups[i];
            proof {
                assert(orig.powerups@[i as int].wf());
            }
            p.pos = geom::step_pos(p.pos, p.vel, dt);
            self.powerups.set(i, p);
            i += 1;
        }
        proof {
            assert forall|k: int|
                0 <= k < self.missiles@.len() implies ((#[trigger] self.missiles@[k]).wf()
                && self.missiles@[k].id < self.next_id) by {
                assert(orig.missiles@[k].wf());
            }
            assert forall|k: int|
                0 <= k < self.powerups@.len() implies ((#[trigger] self.powerups@[k]).wf()
                && self.powerups@[k].id < self.next_id) by {
                assert(orig.powerups@[k].wf());
            }
            assert(distinct_by(self.missiles@, |m: Missile| m.id)) by {
                assert forall|i: int, j: int|
                    0 <= i < j < self.missiles@.len() implies (|m: Missile| m.id)(
                    self.missiles@[i],
                ) != (|m: Missile| m.id)(self.missiles@[j]) by {
                    assert((|m: Missile| m.id)(orig.missiles@[i]) != (|m: Missile| m.id)(
                        orig.missiles@[j],
                    ));
                }
            }
            assert(distinct_by(self.powerups@, |p: Powerup| p.id)) by {
                assert forall|i: int, j: int|
                    0 <= i < j < self.powerups@.len() implies (|p: Powerup| p.id)(
                    self.powerups@[i],
                ) != (|p: Powerup| p.id)(self.powerups@[j]) by {
                    assert((|p: Powerup| p.id)(orig.powerups@[i]) != (|p: Powerup| p.id)(
                        orig.powerups@[j],
                    ));
                }
            }
        }
    }

    /// Tears down every simulation entity, as leaving play does. The
    /// handle counter is kept, so handles are never reused.
    pub fn clear(&mut self)
        ensures
            final(self).wf(),
            final(self).next_id == old(self).next_id,
            final(self).missiles@.len() == 0,
            final(self).explosions@.len() == 0,
            final(self).buildings@.len() == 0,
            final(self).silos@.len() == 0,
            final(self).powerups@.len() == 0,
            final(self).debris@.len() == 0,
    {
        self.missiles = Vec::new();
        self.explosions = Vec::new();
        self.buildings = Vec::new();
        self.silos = Vec::new();
        self.powerups = Vec::new();
        self.debris = Vec::new();
    }
}

/// Filtering the installation table keeps slots distinct.
proof fn lemma_silo_locations_filter(s: Seq<Silo>, pred: spec_fn(Silo) -> bool)
    requires
        forall|i: int, j: int| 0 <= i < j < s.len() ==> s[i].location != s[j].location,
    ensures
        forall|i: int, j: int|
            0 <= i < j < s.filter(pred).len() ==> s.filter(pred)[i].location != s.filter(
                pred,
            )[j].location,
    decreases s.len(),
{
    reveal(Seq::filter);
    if s.len() == 0 {
    } else {
        let rest = s.drop_last();
        assert forall|i: int, j: int| 0 <= i < j < rest.len() implies rest[i].location != rest[j].location by {
            assert(s[i].location != s[j].location);
        }
        lemma_silo_locations_filter(rest, pred);
        if pred(s.last()) {
            let out = rest.filter(pred).push(s.last());
            assert forall|i: int, j: int|
                0 <= i < j < out.len() implies out[i].location != out[j].location by {
                if j < out.len() - 1 {
                    assert(rest.filter(pred)[i].location != rest.filter(pred)[j].location);
                } else {
                    assert(out[i] == rest.filter(pred)[i]);
                    assert(rest.filter(pred).contains(rest.filter(pred)[i]));
                    rest.lemma_filter_contains_rev(pred, rest.filter(pred)[i]);
                    let k = choose|k: int| 0 <= k < rest.len() && rest[k] == rest.filter(pred)[i];
                    assert(s[k].location != s[s.len() - 1].location);
                }
            }
        }
    }
}

} // verus!
