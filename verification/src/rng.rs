//! The library's only source of randomness: per-attempt proxy choice and
//! stealth pacing both draw from the thread-local generator.

use vstd::prelude::*;
use rand::Rng;

verus! {

/// Relies on `rand::thread_rng` and `rand::Rng::gen_range`: a sample drawn
/// from the half-open range `lo..hi`, which panics on an empty range and
/// otherwise returns a value of the range.  Nothing is assumed about which
/// value comes back.
#[verifier::external_body]
pub(crate) fn sample_range_u64(lo: u64, hi: u64) -> (r: u64)
    requires
        lo < hi,
    ensures
        lo <= r < hi,
{
    rand::thread_rng().gen_range(lo..hi)
}

} // verus!
