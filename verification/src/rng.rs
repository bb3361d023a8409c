//! The one point where the library draws randomness.
use vstd::prelude::*;

use rand::Rng;

verus! {

/// Relies on rand's `Rng::gen_range` over `lo..=hi`: it panics on an empty
/// range and otherwise returns a value inside the range. Nothing is
/// promised of the distribution.
#[verifier::external_body]
pub(crate) fn random_in(lo: u64, hi: u64) -> (r: u64)
    requires
        lo <= hi,
    ensures
        lo <= r <= hi,
{
    rand::thread_rng().gen_range(lo..=hi)
}

} // verus!
