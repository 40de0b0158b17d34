//! The randomness source of the transaction generator: a seeded generator
//! threaded explicitly through every sampling site, so a run is
//! reproducible from its seed.

use rand::RngExt;
use rand::SeedableRng;
use vstd::prelude::*;

verus! {

#[verifier::external_type_specification]
#[verifier::external_body]
/// The standard random number generator of the rand crate, declared so
/// values of it can be threaded through the generator's logic.
pub struct ExStdRng(rand::rngs::StdRng);

/// Relies on rand's `SeedableRng::seed_from_u64`: a generator deterministic
/// in the seed.
#[verifier::external_body]
pub fn new_rng(seed: u64) -> (r: rand::rngs::StdRng) {
    rand::rngs::StdRng::seed_from_u64(seed)
}

/// Relies on rand's `RngExt::random`: one byte, any value possible.
#[verifier::external_body]
pub fn random_u8(rng: &mut rand::rngs::StdRng) -> (r: u8) {
    rng.random::<u8>()
}

/// Relies on rand's `RngExt::random`: one boolean, either value possible.
#[verifier::external_body]
pub fn random_bool(rng: &mut rand::rngs::StdRng) -> (r: bool) {
    rng.random::<bool>()
}

/// Relies on rand's `RngExt::random`: one 128-bit value, any value
/// possible.
#[verifier::external_body]
pub fn random_u128(rng: &mut rand::rngs::StdRng) -> (r: u128) {
    rng.random::<u128>()
}

/// Relies on rand's `RngExt::random_range` over `lo..hi`: the draw lies in
/// the half-open range, which must not be empty.
#[verifier::external_body]
pub fn random_range_u128(rng: &mut rand::rngs::StdRng, lo: u128, hi: u128) -> (r: u128)
    requires
        lo < hi,
    ensures
        lo <= r < hi,
{
    rng.random_range(lo..hi)
}

/// Relies on rand's `RngExt::random_range` over `0..n`: an index into a
/// non-empty collection.
#[verifier::external_body]
pub fn random_index(rng: &mut rand::rngs::StdRng, n: usize) -> (r: usize)
    requires
        n > 0,
    ensures
        r < n,
{
    rng.random_range(0..n)
}

} // verus!
