//! Randomness, behind one trusted boundary.
//!
//! The spawners need uniform draws; everything computed from a draw is
//! verified for every value the contract here admits.

use vstd::prelude::*;

use rand::Rng;

verus! {

/// Relies on `rand::thread_rng` and `rand::Rng::gen_range` over a
/// half-open `i64` range: the draw lies in `[lo, hi)`. `gen_range`
/// panics only on an empty range, which the precondition rules out.
/// Nothing more is assumed of which value comes back.
#[verifier::external_body]
pub(crate) fn rand_in_range(lo: i64, hi: i64) -> (r: i64)
    requires
        lo < hi,
    ensures
        lo <= r < hi,
{
    rand::thread_rng().gen_range(lo..hi)
}

} // verus!
