//! The process-wide pseudo-random source: a seeded PCG generator from the
//! `rand_pcg` crate, drawn from through a small trusted surface. Everything
//! a draw decides is stated over every possible outcome, so the verified
//! callers hold for whatever the generator returns.

use vstd::prelude::*;

use rand::RngCore;

verus! {

#[verifier::external_type_specification]
#[verifier::external_body]
pub struct ExLcg64Xsh32(rand_pcg::Lcg64Xsh32);

/// The shared pseudo-random source, seeded once at startup; tests may
/// inject their own seed through `GameRng::new`.
pub struct GameRng(pub rand_pcg::Pcg32);

/// Relies on `rand_pcg::Lcg64Xsh32::new`: builds the generator from the
/// given seed and stream selector. Always succeeds.
#[verifier::external_body]
fn pcg32_new(state: u64, stream: u64) -> rand_pcg::Pcg32 {
    rand_pcg::Pcg32::new(state, stream)
}

/// Relies on `rand_core::RngCore::next_u32` for `Lcg64Xsh32`: steps the
/// generator and returns its next output. Always succeeds; nothing can be
/// promised of the value.
#[verifier::external_body]
fn pcg32_next_u32(rng: &mut rand_pcg::Pcg32) -> u32 {
    rng.next_u32()
}

/// Relies on `rand::distributions::WeightedIndex::new` and its
/// `Distribution::sample`: for a nonempty list of weights with a positive
/// total (the bounds below keep the u32 total from overflowing, so `new`
/// returns `Ok`), `sample` returns the index of an entry whose weight is
/// positive — zero-weight entries are never chosen.
#[verifier::external_body]
fn pcg32_sample_weighted(rng: &mut rand_pcg::Pcg32, weights: &Vec<u32>) -> (idx: usize)
    requires
        0 < weights@.len() <= 64,
        forall|i: int| 0 <= i < weights@.len() ==> weights@[i] <= 100_000,
        exists|i: int| 0 <= i < weights@.len() && weights@[i] > 0,
    ensures
        idx < weights@.len(),
        weights@[idx as int] > 0,
{
    let dist = rand::distributions::WeightedIndex::new(weights.iter()).unwrap();
    rand::distributions::Distribution::sample(&dist, rng)
}

impl Default for GameRng {
    /// The fixed startup seed.
    fn default() -> Self {
        GameRng(pcg32_new(0xcafef00dd15ea5e5, 0xa02bdbf7bb3c0a7))
    }
}

impl GameRng {
    /// A generator from an explicit seed, for deterministic runs.
    pub fn new(state: u64, stream: u64) -> GameRng {
        GameRng(pcg32_new(state, stream))
    }

    /// A draw from `[lo, hi)`; which value comes back is the generator's
    /// business, only the band is promised.
    pub fn gen_range(&mut self, lo: i64, hi: i64) -> (r: i64)
        requires
            lo < hi,
            hi - lo <= u32::MAX,
        ensures
            lo <= r < hi,
    {
        let draw = pcg32_next_u32(&mut self.0) as u64;
        let span = (hi - lo) as u64;
        let m = draw % span;
        lo + (m as i64)
    }

    /// The index of a positive-weight entry, drawn with probability
    /// proportional to its weight.
    pub fn pick_weighted(&mut self, weights: &Vec<u32>) -> (idx: usize)
        requires
            0 < weights@.len() <= 64,
            forall|i: int| 0 <= i < weights@.len() ==> weights@[i] <= 100_000,
            exists|i: int| 0 <= i < weights@.len() && weights@[i] > 0,
        ensures
            idx < weights@.len(),
            weights@[idx as int] > 0,
    {
        pcg32_sample_weighted(&mut self.0, weights)
    }
}

} // verus!
