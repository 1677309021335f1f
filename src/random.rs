use rand::Rng;
use vstd::prelude::*;

verus! {

/// Relies on `rand::rng` and `Rng::random_range` over `0..n`: a value drawn
/// from the half-open range, which panics only when the range is empty.
#[verifier::external_body]
pub(crate) fn random_below(n: u16) -> (r: u16)
    requires
        n > 0,
    ensures
        r < n,
{
    rand::rng().random_range(0..n)
}

} // verus!
