//! The library's only source of randomness: thin trusted wrappers around
//! the `rand` crate.  Every verified caller states what holds of whatever
//! sample comes back; nothing downstream depends on which value it was.

use vstd::prelude::*;

verus! {

/// Relies on `rand::Rng::gen_range` over `0..n`: the sample is drawn from
/// the half-open range, so it is strictly below `n`.
#[verifier::external_body]
pub(crate) fn rand_below(n: usize) -> (r: usize)
    requires
        n >= 1,
    ensures
        r < n,
{
    rand::Rng::gen_range(&mut rand::thread_rng(), 0..n)
}

/// Relies on `rand::Rng::gen_range` over `0..n`, at `i64`: the sample is
/// drawn from the half-open range, so it is nonnegative and below `n`.
#[verifier::external_body]
pub(crate) fn rand_below_i64(n: i64) -> (r: i64)
    requires
        n >= 1,
    ensures
        0 <= r < n,
{
    rand::Rng::gen_range(&mut rand::thread_rng(), 0..n)
}

} // verus!
