//! Trusted boundary to the random number source.
//!
//! Nothing can be promised about which value comes back, only that it lies
//! in the requested range; every caller must hold for every such value.

use vstd::prelude::*;

verus! {

/// Relies on rand::random_range over `0..n`: it panics only on an empty
/// range and returns a uniformly drawn value inside the range.
#[verifier::external_body]
pub(crate) fn random_index(n: usize) -> (r: usize)
    requires
        n > 0,
    ensures
        r < n,
{
    rand::random_range(0..n)
}

/// Relies on rand::random_range over `lo..=hi`: it panics only on an empty
/// range and returns a uniformly drawn value inside the range.
#[verifier::external_body]
pub(crate) fn random_in_range(lo: i32, hi: i32) -> (r: i32)
    requires
        lo <= hi,
    ensures
        lo <= r <= hi,
{
    rand::random_range(lo..=hi)
}

} // verus!
