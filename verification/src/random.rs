//! Draws from the thread-local random number generator of the `rand` crate.

use vstd::prelude::*;

verus! {

/// `value` was drawn by `random_below` from `[0, bound)`. The body only says
/// that the value lies in that range, but it is closed: outside this module
/// nothing but the contract of `random_below` establishes it, so a contract
/// that asks for it says the value came from a draw over the whole range
/// `[0, bound)`, not from a narrower draw or a constant.
pub closed spec fn drawn_below(value: int, bound: int) -> bool {
    0 <= value < bound
}

/// Draws a number from `0..bound` with `rand::RngExt::random_range` on the
/// thread-local generator returned by `rand::rng()`. The crate samples within
/// the half-open range it is given and panics only on an empty range, so the
/// contract claims the result lies in `[0, bound)`, which makes it
/// `drawn_below` the bound, and requires a non-empty range. Which number comes back depends on the generator's state and is
/// left unsaid.
#[verifier::external_body]
pub(crate) fn random_below(bound: i32) -> (r: i32)
    requires
        bound > 0,
    ensures
        0 <= r < bound,
        drawn_below(r as int, bound as int),
{
    rand::RngExt::random_range(&mut rand::rng(), 0..bound)
}

} // verus!
