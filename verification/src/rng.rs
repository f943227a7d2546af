//! The engine's one source of randomness: the process-wide generator
//! of the `rand` crate. Spray angles, flood angles and flood placements
//! are drawn through it; every verified consumer is proved for every
//! value the stated range admits.

use rand::Rng;
use vstd::prelude::*;

verus! {

/// Relies on rand::Rng::random_range over the inclusive range
/// `lo ..= hi`: the draw always lies within the range (a non-empty
/// range never panics). Nothing more is promised of a random draw.
#[verifier::external_body]
pub(crate) fn random_in(lo: i64, hi: i64) -> (r: i64)
    requires
        lo <= hi,
    ensures
        lo <= r <= hi,
{
    rand::rng().random_range(lo..=hi)
}

} // verus!
