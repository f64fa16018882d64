//! The single source of randomness of the game: the per-recycle vertical
//! offset of an obstacle track.

use vstd::prelude::*;

use rand::Rng;

use crate::params::{OFFSET_MAX, OFFSET_MIN};

verus! {

/// Relies on rand::thread_rng and rand::Rng::gen_range: gen_range on the
/// non-empty range OFFSET_MIN..OFFSET_MAX returns a uniformly distributed
/// value at least the lower bound and strictly below the upper bound.
/// Nothing more holds of a random draw, so the contract states the bounds
/// alone.
#[verifier::external_body]
pub fn random_offset() -> (r: i64)
    ensures
        OFFSET_MIN <= r < OFFSET_MAX,
{
    rand::thread_rng().gen_range(OFFSET_MIN..OFFSET_MAX)
}

} // verus!
