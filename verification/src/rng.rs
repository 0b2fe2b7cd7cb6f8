//! The engine's one source of randomness: noise-table fill and the lowpass
//! tap jitter.

use rand::Rng;
use vstd::prelude::*;

verus! {

/// Relies on `rand::Rng::gen_range` over `0..bound`: it panics only on an
/// empty range and returns a value drawn from within the range.  Nothing
/// more is assumed of the draw.
#[verifier::external_body]
pub fn random_below(bound: u32) -> (r: u32)
    requires
        bound > 0,
    ensures
        r < bound,
{
    rand::thread_rng().gen_range(0..bound)
}

} // verus!
