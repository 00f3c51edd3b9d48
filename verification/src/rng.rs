use vstd::prelude::*;

verus! {

/// Relies on `fastrand::usize`: a value drawn uniformly from the given
/// range. The range `lo..hi` is non-empty, so the call does not panic, and
/// the result lies inside it; nothing more is assumed of a random draw.
#[verifier::external_body]
pub(crate) fn random_usize_in(lo: usize, hi: usize) -> (r: usize)
    requires
        lo < hi,
    ensures
        lo <= r < hi,
{
    fastrand::usize(lo..hi)
}

} // verus!
