//! Seeded randomness: the two calls into `rand` / `rand_chacha` that card
//! draws make. Both are functions of the seed and their input alone.

use vstd::prelude::*;
use rand::seq::SliceRandom;
use rand::Rng;
use rand::SeedableRng;

verus! {

/// The index that `ChaCha8Rng::seed_from_u64(seed).gen_range(0..len)` yields.
pub uninterp spec fn chacha_index(seed: u64, len: usize) -> usize;

/// The order that shuffling `items` with `ChaCha8Rng::seed_from_u64(seed)` yields.
pub uninterp spec fn chacha_shuffle(seed: u64, items: Seq<u32>) -> Seq<u32>;

/// Calls rand's `Rng::gen_range(0..len)` on a `ChaCha8Rng` seeded from `seed`.
///
/// Trusted: the result is the named draw for `(seed, len)` and lies in
/// `0..len` (rand documents that `gen_range` samples from the range and
/// panics on an empty range, which `requires` rules out).
#[verifier::external_body]
pub(crate) fn seeded_index(seed: u64, len: usize) -> (r: usize)
    requires
        len > 0,
    ensures
        r == chacha_index(seed, len),
        r < len,
{
    let mut rng = rand_chacha::ChaCha8Rng::seed_from_u64(seed);
    rng.gen_range(0..len)
}

/// Calls rand's `SliceRandom::shuffle` on `items` with a `ChaCha8Rng` seeded
/// from `seed`.
///
/// Trusted: the result is the named shuffle of `(seed, items)` and holds the
/// same elements as `items` (the shuffle only swaps elements in place).
#[verifier::external_body]
pub(crate) fn seeded_shuffle(items: Vec<u32>, seed: u64) -> (r: Vec<u32>)
    ensures
        r@ == chacha_shuffle(seed, items@),
        r@.to_multiset() == items@.to_multiset(),
{
    let mut items = items;
    let mut rng = rand_chacha::ChaCha8Rng::seed_from_u64(seed);
    items.shuffle(&mut rng);
    items
}

} // verus!
