use vstd::prelude::*;

verus! {

/// Relies on rand::thread_rng and rand::Rng::gen_range over a half-open
/// integer range: the sampled value lies in [lo, hi), and the call panics on
/// an empty range, which the precondition rules out. Nothing is assumed
/// about which value comes back.
#[verifier::external_body]
pub(crate) fn random_in_range(lo: i64, hi: i64) -> (r: i64)
    requires
        lo < hi,
    ensures
        lo <= r < hi,
{
    rand::Rng::gen_range(&mut rand::thread_rng(), lo..hi)
}

} // verus!
