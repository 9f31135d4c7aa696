//! The boundary to the random-number generator. Every random draw a game
//! makes is keyed by a 64-bit seed, so that the deal a seed produces is a
//! fixed value and the determinism contract of the engine can be stated
//! and proved. The names below stand for those fixed values.

use vstd::prelude::*;

use crate::card::Card;
use rand::Rng;
use rand::SeedableRng;
use rand::seq::SliceRandom;
use rand_chacha::ChaCha8Rng;

verus! {

#[verifier::external_type_specification]
#[verifier::external_body]
pub struct ExChaCha8Rng(ChaCha8Rng);

/// The dealer seat that a generator freshly seeded with `seed` yields.
pub uninterp spec fn drawn_seat(seed: u64) -> u8;

/// The permutation of `cards` produced by a generator freshly seeded with
/// `seed`.
pub uninterp spec fn shuffled(seed: u64, cards: Seq<Card>) -> Seq<Card>;

/// The permutation of `cards` produced by a generator freshly seeded with
/// `seed` after one seat draw has consumed the head of its stream.
pub uninterp spec fn shuffled_after_draw(seed: u64, cards: Seq<Card>) -> Seq<Card>;

/// Relies on `rand_chacha::ChaCha8Rng::seed_from_u64` and
/// `rand::Rng::gen_range`: the generator's stream is a function of the seed
/// alone, and a draw over `0..=3` lies in that range and never panics.
#[verifier::external_body]
pub(crate) fn draw_dealer_seat(seed: u64) -> (seat: u8)
    ensures
        seat == drawn_seat(seed),
        seat < 4,
{
    let mut gen: ChaCha8Rng = ChaCha8Rng::seed_from_u64(seed);
    gen.gen_range(0..=3)
}

/// Relies on `rand_chacha::ChaCha8Rng::seed_from_u64` and
/// `rand::seq::SliceRandom::shuffle`: shuffling permutes the slice in place
/// (a Fisher-Yates pass), and the permutation is a function of the seed
/// alone.
#[verifier::external_body]
pub(crate) fn shuffle_with_seed(seed: u64, cards: &mut Vec<Card>)
    ensures
        final(cards)@ == shuffled(seed, old(cards)@),
        final(cards)@.to_multiset() == old(cards)@.to_multiset(),
        final(cards)@.len() == old(cards)@.len(),
{
    let mut gen: ChaCha8Rng = ChaCha8Rng::seed_from_u64(seed);
    cards.shuffle(&mut gen);
}

/// Relies on the same functions as `shuffle_with_seed`, with one
/// `rand::Rng::gen_range` draw consuming the head of the stream first, as
/// happens when the dealer seat was drawn before the deck was shuffled.
#[verifier::external_body]
pub(crate) fn shuffle_after_seat_draw(seed: u64, cards: &mut Vec<Card>)
    ensures
        final(cards)@ == shuffled_after_draw(seed, old(cards)@),
        final(cards)@.to_multiset() == old(cards)@.to_multiset(),
        final(cards)@.len() == old(cards)@.len(),
{
    let mut gen: ChaCha8Rng = ChaCha8Rng::seed_from_u64(seed);
    let _seat: u8 = gen.gen_range(0..=3);
    cards.shuffle(&mut gen);
}

/// Relies on `rand::random`: a fresh value from the thread-local generator.
/// Nothing is promised of the result; it seeds a game when no seed is given.
#[verifier::external_body]
pub(crate) fn entropy_seed() -> u64 {
    rand::random::<u64>()
}

/// Relies on `rand_chacha::ChaCha8Rng::seed_from_u64`. Nothing is promised
/// of the generator, which only drives an agent's own choices.
#[verifier::external_body]
fn rng_from_seed(seed: u64) -> ChaCha8Rng {
    ChaCha8Rng::seed_from_u64(seed)
}

/// Relies on `rand::SeedableRng::from_entropy`: a generator seeded from
/// system entropy. Nothing is promised of the result.
#[verifier::external_body]
fn rng_from_entropy() -> ChaCha8Rng {
    rand_chacha::ChaCha8Rng::from_entropy()
}

/// Relies on `rand::Rng::gen_range`: a draw over `0..bound` lies below the
/// bound and never panics when the range is non-empty.
#[verifier::external_body]
pub(crate) fn draw_index(gen: &mut ChaCha8Rng, bound: usize) -> (i: usize)
    requires
        bound >= 1,
    ensures
        i < bound,
{
    gen.gen_range(0..bound)
}

/// A generator seeded with the given value, or from system entropy when no
/// value is given.
pub fn get_rdm_gen(seed: Option<u64>) -> ChaCha8Rng {
    match seed {
        Some(num) => rng_from_seed(num),
        None => rng_from_entropy(),
    }
}

} // verus!
