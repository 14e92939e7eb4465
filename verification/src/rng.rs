use vstd::prelude::*;

use rand::RngExt;

verus! {

/// The injected randomness source: one deterministic, seedable generator
/// drawn from at every point where the combat rules need chance. The caller
/// builds it (seeded, for deterministic replay) and threads it through.
#[verifier::external_type_specification]
#[verifier::external_body]
pub struct ExStdRng(rand::rngs::StdRng);

/// Relies on rand::RngExt::random_range: a draw from the inclusive range
/// `lo..=hi` lies within it; the range is non-empty, so the call returns.
/// Nothing more is promised: any value of the range may come back.
#[verifier::external_body]
pub(crate) fn roll(rng: &mut rand::rngs::StdRng, lo: u32, hi: u32) -> (r: u32)
    requires
        lo <= hi,
    ensures
        lo <= r <= hi,
{
    rng.random_range(lo..=hi)
}

} // verus!
