use vstd::prelude::*;

verus! {

/// Relies on rand's `thread_rng` and `Rng::gen_range`: a sample from the
/// half-open range `0..n` lies strictly below `n`, and the call panics only on
/// an empty range, which `n > 0` rules out. Two calls on the same `n` may
/// return different values; nothing more is assumed of the outcome.
#[verifier::external_body]
pub(crate) fn random_below(n: usize) -> (r: usize)
    requires
        n > 0,
    ensures
        r < n,
{
    rand::Rng::gen_range(&mut rand::thread_rng(), 0..n)
}

} // verus!
