//! Randomness source for the generators.
//!
//! Every random decision in the crate draws from `rand`'s standard generator
//! through the few wrappers below; the logic that consumes the drawn values
//! is verified for every value the wrappers may return.

use vstd::prelude::*;

verus! {

#[verifier::external_type_specification]
#[verifier::external_body]
pub struct ExStdRng(rand::rngs::StdRng);

/// Relies on rand::rngs::StdRng::from_entropy to build a fresh,
/// OS-seeded generator. Nothing is promised of its state.
#[verifier::external_body]
pub fn fresh_rng() -> rand::rngs::StdRng {
    <rand::rngs::StdRng as rand::SeedableRng>::from_entropy()
}

/// Relies on rand::Rng::gen_range over `0..n`: the sample lies in the
/// (nonempty) range. Which value comes back is left open.
#[verifier::external_body]
pub fn rand_below(rng: &mut rand::rngs::StdRng, n: u64) -> (r: u64)
    requires
        n > 0,
    ensures
        r < n,
{
    rand::Rng::gen_range(rng, 0..n)
}

/// Relies on rand::Rng::gen_range over `lo..=hi`: the sample lies in the
/// (nonempty) inclusive range. Which value comes back is left open.
#[verifier::external_body]
pub fn rand_between_i32(rng: &mut rand::rngs::StdRng, lo: i32, hi: i32) -> (r: i32)
    requires
        lo <= hi,
    ensures
        lo <= r <= hi,
{
    rand::Rng::gen_range(rng, lo..=hi)
}

/// Relies on rand::Rng::gen::<bool>. Nothing is promised of the outcome.
#[verifier::external_body]
pub fn rand_bool(rng: &mut rand::rngs::StdRng) -> bool {
    rand::Rng::gen(rng)
}

/// A random value in 0..1000, used wherever a probability is stored in
/// thousandths. Relies on rand::Rng::gen_range as `rand_below` does.
#[verifier::external_body]
pub fn rand_permille(rng: &mut rand::rngs::StdRng) -> (r: u16)
    ensures
        r < 1000,
{
    rand::Rng::gen_range(rng, 0..1000)
}

} // verus!
