//! The randomness boundary: a seedable pseudo-random source, used for
//! asteroid generation. Nothing is assumed of any drawn value beyond its
//! range, so every caller is verified for every outcome.

use vstd::prelude::*;

verus! {

/// The pseudo-random generator driving asteroid generation (`rand`'s
/// small-state generator), opaque to the verifier.
#[verifier::external_type_specification]
#[verifier::external_body]
pub struct ExSmallRng(rand::rngs::SmallRng);

/// Relies on `rand::SeedableRng::seed_from_u64`: builds a generator from a
/// seed word. Nothing is assumed about the stream it produces.
#[verifier::external_body]
pub fn rng_from_seed(seed: u64) -> (r: rand::rngs::SmallRng) {
    <rand::rngs::SmallRng as rand::SeedableRng>::seed_from_u64(seed)
}

/// Relies on `rand::Rng::gen_range` over a half-open `i64` range: returns a
/// value inside the range, and panics only on an empty range, which the
/// precondition excludes.
#[verifier::external_body]
pub fn rng_range(rng: &mut rand::rngs::SmallRng, lo: i64, hi: i64) -> (r: i64)
    requires
        lo < hi,
    ensures
        lo <= r < hi,
{
    rand::Rng::gen_range(rng, lo..hi)
}

} // verus!
