use rand::rngs::SmallRng;
use rand::{Rng, SeedableRng};
use vstd::prelude::*;

verus! {

#[verifier::external_type_specification]
#[verifier::external_body]
pub struct ExSmallRng(SmallRng);

/// Relies on rand's `Rng::random_range` on an inclusive range: it returns a
/// value within the bounds, and panics on an empty range (hence `lo <= hi`).
#[verifier::external_body]
pub(crate) fn random_in(rng: &mut SmallRng, lo: u32, hi: u32) -> (r: u32)
    requires
        lo <= hi,
    ensures
        lo <= r <= hi,
{
    rng.random_range(lo..=hi)
}

/// Relies on rand's `SeedableRng::seed_from_u64` for `SmallRng`: a
/// generator whose draws are determined by the seed. Nothing is stated of
/// the draws themselves.
#[verifier::external_body]
pub(crate) fn seeded_rng(seed: u64) -> SmallRng {
    SmallRng::seed_from_u64(seed)
}

/// A uniform draw in `[0, n)`.
pub(crate) fn roll(rng: &mut SmallRng, n: u32) -> (r: u32)
    requires
        n > 0,
    ensures
        r < n,
{
    random_in(rng, 0, n - 1)
}

} // verus!
