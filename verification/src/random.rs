//! The library's single source of randomness.

use vstd::prelude::*;
use rand::Rng;

verus! {

/// Draw a uniformly random number below the given bound.
///
/// Relies on `rand::Rng::gen_range` on the thread-local generator
/// `rand::thread_rng()`: the result of sampling the half-open range below
/// `bound` always lies in that range, and the call panics only on an
/// empty range, which the bound being positive rules out.
#[verifier::external_body]
pub(crate) fn random_below(bound: u16) -> (r: u16)
    requires
        1 <= bound,
    ensures
        r < bound,
{
    rand::thread_rng().gen_range(0..bound)
}

} // verus!
