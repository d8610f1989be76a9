//! Debris left where a structure fell.
//!
//! Debris is visual-only state: it is created when a structure is
//! destroyed and cleared wholesale when play ends. It takes part in no
//! collision rule.

use vstd::prelude::*;

use crate::consts::POS_LIMIT;
use crate::world::World;

verus! {

/// What kind of structure the debris came from.
#[derive(Clone, Copy, PartialEq, Eq, Structural, Debug)]
pub enum DebrisType {
    Building,
    Silo,
}

/// A request to drop debris next tick.
#[derive(Clone, Copy, PartialEq, Eq, Structural, Debug)]
pub struct SpawnDebris {
    /// Horizontal position of the fallen structure (mu).
    pub x_position: i64,
    /// Which kind of structure fell.
    pub debris_type: DebrisType,
}

impl SpawnDebris {
    pub open spec fn wf(self) -> bool {
        -POS_LIMIT <= self.x_position <= POS_LIMIT
    }
}

/// A settled piece of debris.
#[derive(Clone, Copy, PartialEq, Eq, Structural, Debug)]
pub struct Debris {
    /// The entity handle.
    pub id: u64,
    /// Horizontal position (mu); debris rests at a fixed height.
    pub x_position: i64,
    /// Which kind of structure fell.
    pub debris_type: DebrisType,
}

impl Debris {
    pub open spec fn wf(self) -> bool {
        -POS_LIMIT <= self.x_position <= POS_LIMIT
    }
}

/// The debris a drop request settles into, given the id it will
/// carry.
pub open spec fn debris_of_event_spec(e: SpawnDebris, id: u64) -> Debris {
    Debris { id, x_position: e.x_position, debris_type: e.debris_type }
}

/// The debris a queue of drop requests settles into, with ids
/// assigned in order starting at `base_id`.
pub open spec fn spawned_debris_spec(evs: Seq<SpawnDebris>, base_id: u64) -> Seq<Debris>
    decreases evs.len(),
{
    if evs.len() == 0 {
        Seq::empty()
    } else {
        spawned_debris_spec(evs.drop_last(), base_id).push(
            debris_of_event_spec(evs.last(), (base_id + evs.len() - 1) as u64),
        )
    }
}

proof fn lemma_spawned_debris_push(evs: Seq<SpawnDebris>, e: SpawnDebris, base_id: u64)
    ensures
        spawned_debris_spec(evs.push(e), base_id) == spawned_debris_spec(evs, base_id).push(
            debris_of_event_spec(e, (base_id + evs.len()) as u64),
        ),
{
    assert(evs.push(e).drop_last() =~= evs);
    assert(evs.push(e).last() == e);
}

/// Applies queued drop requests: each becomes one settled piece of
/// debris.
pub fn spawn_debris(w: &mut World, evs: &Vec<SpawnDebris>)
    requires
        old(w).wf(),
        forall|i: int| 0 <= i < evs@.len() ==> #[trigger] evs@[i].wf(),
        old(w).next_id + evs@.len() <= u64::MAX,
    ensures
        final(w).wf(),
        *final(w) == (World { next_id: final(w).next_id, debris: final(w).debris, ..*old(w) }),
        final(w).debris@ == old(w).debris@ + spawned_debris_spec(evs@, old(w).next_id),
        final(w).next_id == old(w).next_id + evs@.len(),
{
    let ghost orig = *w;
    let mut i: usize = 0;
    while i < evs.len()
        invariant
            i <= evs@.len(),
            w.wf(),
            orig.wf(),
            forall|k: int| 0 <= k < evs@.len() ==> #[trigger] evs@[k].wf(),
            orig.next_id + evs@.len() <= u64::MAX,
            *w == (World { next_id: w.next_id, debris: w.debris, ..orig }),
            w.debris@ == orig.debris@ + spawned_debris_spec(evs@.take(i as int), orig.next_id),
            w.next_id == orig.next_id + i,
        decreases evs@.len() - i,
    {
        let e = evs[i];
        proof {
            assert(e.wf());
            assert(evs@.take(i as int + 1) =~= evs@.take(i as int).push(evs@[i as int]));
            lemma_spawned_debris_push(evs@.take(i as int), e, orig.next_id);
        }
        let id = w.peek_id();
        w.push_debris(Debris { id, x_position: e.x_position, debris_type: e.debris_type });
        i += 1;
    }
    proof {
        assert(evs@.take(evs@.len() as int) =~= evs@);
    }
}

} // verus!
