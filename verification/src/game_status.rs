//! The accumulated score.
//!
//! Score deltas arrive as events and are folded into the running
//! total, saturating only at the machine's integer limit. Entering
//! play zeroes the total.

use vstd::prelude::*;

use crate::events::UpdateScore;

verus! {

/// The running total of all score events.
#[derive(Clone, Copy, PartialEq, Eq, Structural, Debug)]
pub struct GameStatus {
    /// The accumulated score.
    pub score: u64,
}

/// A total after folding in one delta, saturating at the integer
/// limit.
pub open spec fn sat_add_spec(a: u64, b: u64) -> u64 {
    if a + b <= u64::MAX {
        (a + b) as u64
    } else {
        u64::MAX
    }
}

/// A total after folding in a queue of deltas in order.
pub open spec fn fold_scores_spec(total: u64, evs: Seq<UpdateScore>) -> u64
    decreases evs.len(),
{
    if evs.len() == 0 {
        total
    } else {
        fold_scores_spec(sat_add_spec(total, evs[0].0), evs.drop_first())
    }
}

impl GameStatus {
    /// A zero score, as entering play sets it.
    pub fn new() -> (s: GameStatus)
        ensures
            s.score == 0,
    {
        GameStatus { score: 0 }
    }

    /// Zeroes the total, as entering play does.
    pub fn reset(&mut self)
        ensures
            final(self).score == 0,
    {
        self.score = 0;
    }

    /// Folds queued score deltas into the total in order.
    pub fn apply_score_events(&mut self, evs: &Vec<UpdateScore>)
        ensures
            final(self).score == fold_scores_spec(old(self).score, evs@),
    {
        let mut i: usize = 0;
        proof {
            assert(evs@.skip(0) =~= evs@);
        }
        while i < evs.len()
            invariant
                i <= evs@.len(),
                fold_scores_spec(self.score, evs@.skip(i as int)) == fold_scores_spec(
                    old(self).score,
                    evs@,
                ),
            decreases evs@.len() - i,
        {
            proof {
                assert(evs@.skip(i as int).drop_first() =~= evs@.skip(i as int + 1));
                assert(evs@.skip(i as int)[0] == evs@[i as int]);
            }
            let v = evs[i].0;
            if self.score <= u64::MAX - v {
                self.score = self.score + v;
            } else {
                self.score = u64::MAX;
            }
            i += 1;
        }
        proof {
            assert(evs@.skip(evs@.len() as int) =~= Seq::<UpdateScore>::empty());
        }
    }
}

} // verus!
