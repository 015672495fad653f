//! The library's only source of randomness: a uniform draw below a bound.

use vstd::prelude::*;

use rand::Rng;

verus! {

/// Relies on `rand::Rng::gen_range` over `rand::thread_rng()`: on the
/// non-empty range `0..n` it returns a value of that range, drawn uniformly.
/// The draw is chance, so nothing beyond membership is assumed.
#[verifier::external_body]
pub(crate) fn random_below(n: usize) -> (r: usize)
    requires
        1 <= n,
    ensures
        r < n,
{
    rand::thread_rng().gen_range(0..n)
}

} // verus!
