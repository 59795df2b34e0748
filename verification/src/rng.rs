//! Uniform random index selection.

use vstd::prelude::*;

verus! {

/// Relies on rand::random_range over `0..n`: it panics on an empty range and
/// otherwise returns a value of the range, drawn from the thread-local
/// generator. Nothing more is promised of the outcome: two calls on the same
/// bound may differ.
#[verifier::external_body]
pub(crate) fn random_below(n: usize) -> (r: usize)
    requires
        n >= 1,
    ensures
        r < n,
{
    rand::random_range(0..n)
}

} // verus!
