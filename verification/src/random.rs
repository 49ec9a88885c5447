use vstd::prelude::*;

verus! {

/// Calls `rand::random::<u32>()`, a uniformly drawn `u32` from the
/// thread-local generator. Any `u32` may come back, so nothing is promised
/// of the result.
#[verifier::external_body]
pub(crate) fn random_u32() -> (r: u32) {
    rand::random::<u32>()
}

/// Calls `rand::random_range(lo..hi)` for `u8`. rand's documentation and
/// source (`SampleRange` for `Range`) sample from the half-open range and
/// panic only when it is empty; the contract states that the result lies
/// in `[lo, hi)` and leaves the empty range out.
#[verifier::external_body]
pub(crate) fn random_range_u8(lo: u8, hi: u8) -> (r: u8)
    requires
        lo < hi,
    ensures
        lo <= r < hi,
{
    rand::random_range(lo..hi)
}

} // verus!
