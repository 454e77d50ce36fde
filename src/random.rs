//! The randomness source and the few draws the strategies make from it.
use vstd::prelude::*;
use crate::simple_methods::total_weight;
use rand::rngs::StdRng;
use rand::distributions::{Distribution, WeightedIndex};
use rand::Rng;
use rand::SeedableRng;

verus! {

/// The engine's random stream: rand's seedable standard generator.
#[verifier::external_type_specification]
#[verifier::external_body]
pub struct ExStdRng(rand::rngs::StdRng);

/// Relies on rand's `SeedableRng::seed_from_u64` for `StdRng`: a generator
/// whose whole stream is fixed by the seed.
#[verifier::external_body]
pub(crate) fn rng_from_seed(seed: u64) -> (r: StdRng) {
    StdRng::seed_from_u64(seed)
}

/// Relies on rand's `Rng::gen_ratio`: a Bernoulli trial that succeeds
/// `numerator` times in `denominator`. Its source returns `false` for a zero
/// numerator and `true` when numerator and denominator are equal, and panics
/// on a zero denominator or a numerator above the denominator.
#[verifier::external_body]
pub(crate) fn trial(rng: &mut StdRng, numerator: u32, denominator: u32) -> (r: bool)
    requires
        0 < denominator,
        numerator <= denominator,
    ensures
        numerator == 0 ==> !r,
        numerator == denominator ==> r,
{
    rng.gen_ratio(numerator, denominator)
}

/// Relies on rand's `Rng::gen_range` over the inclusive range `0..=hi` of
/// `u128`: a uniform draw that never leaves the range (never empty here).
#[verifier::external_body]
pub(crate) fn draw_at_most(rng: &mut StdRng, hi: u128) -> (r: u128)
    ensures
        r <= hi,
{
    rng.gen_range(0..=hi)
}

/// Relies on rand's `WeightedIndex::new` and its `Distribution::sample`,
/// over the weights widened to `u128`: an index drawn with probability
/// proportional to its weight. `new` fails only on no weights or a zero total,
/// which `requires` leaves out; the widened total of a `Vec` of `u64` weights
/// cannot overflow. `sample` draws below the total and returns the first index
/// whose running sum exceeds the draw, so that index has a positive weight.
#[verifier::external_body]
pub(crate) fn weighted_draw(rng: &mut StdRng, weights: &Vec<u64>) -> (r: usize)
    requires
        weights@.len() > 0,
        total_weight(weights@) > 0,
    ensures
        r < weights@.len(),
        weights@[r as int] > 0,
{
    let index = WeightedIndex::<u128>::new(weights.iter().map(|&w| w as u128)).unwrap();
    index.sample(rng)
}

/// Relies on rand's `thread_rng` and `Rng::gen_range` over the inclusive
/// range `lo..=hi` of `i64`: a draw from the thread's generator inside the
/// range. The source panics on an empty range, which `requires` leaves out.
#[verifier::external_body]
pub(crate) fn thread_draw_between(lo: i64, hi: i64) -> (r: i64)
    requires
        lo <= hi,
    ensures
        lo <= r <= hi,
{
    rand::thread_rng().gen_range(lo..=hi)
}

/// Relies on rand's `thread_rng` and `Rng::gen` for `i64`: a draw from the
/// thread's generator over every `i64`.
#[verifier::external_body]
pub(crate) fn thread_draw_any() -> (r: i64) {
    rand::thread_rng().gen::<i64>()
}

} // verus!
