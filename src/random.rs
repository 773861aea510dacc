use vstd::prelude::*;
use rand::rngs::SmallRng;
use rand::{Rng, SeedableRng};

verus! {

#[verifier::external_type_specification]
#[verifier::external_body]
pub struct ExSmallRng(SmallRng);

/// Relies on rand's `SeedableRng::seed_from_u64` for `SmallRng`: a generator
/// whose output is fixed by the seed.
#[verifier::external_body]
pub(crate) fn seeded(seed: u64) -> (r: SmallRng) {
    SmallRng::seed_from_u64(seed)
}

/// Relies on rand's `Rng::random_range` over the inclusive range `lo..=hi`:
/// a value within the range, which must not be empty.
#[verifier::external_body]
pub(crate) fn random_in(rng: &mut SmallRng, lo: u32, hi: u32) -> (r: u32)
    requires
        lo <= hi,
    ensures
        lo <= r <= hi,
{
    rng.random_range(lo..=hi)
}

/// Relies on rand's `Rng::random_ratio`: true with chance `numerator` in
/// `denominator`; never with a numerator of zero, always when the two are
/// equal. It panics on a zero denominator or a numerator above it.
#[verifier::external_body]
pub(crate) fn random_ratio(rng: &mut SmallRng, numerator: u32, denominator: u32) -> (r: bool)
    requires
        0 < denominator,
        numerator <= denominator,
    ensures
        numerator == 0 ==> !r,
        numerator == denominator ==> r,
{
    rng.random_ratio(numerator, denominator)
}

} // verus!
