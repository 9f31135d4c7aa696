//! The 24-card Euchre deck: all suit and rank combinations, a seeded
//! shuffle, and dealing from the tail.

use vstd::prelude::*;

use crate::card::{Card, Rank, Suit};
use crate::utils;

verus! {

/// The suit at position `i` of the deck-building order.
pub open spec fn suit_of_index(i: int) -> Suit {
    if i == 0 {
        Suit::Diamonds
    } else if i == 1 {
        Suit::Hearts
    } else if i == 2 {
        Suit::Clubs
    } else {
        Suit::Spades
    }
}

/// The rank at position `i` of the deck-building order.
pub open spec fn rank_of_index(i: int) -> Rank {
    if i == 0 {
        Rank::Nine
    } else if i == 1 {
        Rank::Ten
    } else if i == 2 {
        Rank::Jack
    } else if i == 3 {
        Rank::Queen
    } else if i == 4 {
        Rank::King
    } else {
        Rank::Ace
    }
}

/// The full unshuffled deck: the 24 concrete suit-rank combinations, suits
/// in deck-building order, the six ranks of each suit together.
pub open spec fn full_deck() -> Seq<Card> {
    Seq::new(24, |i: int| Card { suit: suit_of_index(i / 6), rank: rank_of_index(i % 6) })
}

/// Every card of all 24 suit-rank combinations, in deck-building order.
pub fn create_all_card_combos() -> (v: Vec<Card>)
    ensures
        v@ == full_deck(),
{
    let suits: [Suit; 4] = [Suit::Diamonds, Suit::Hearts, Suit::Clubs, Suit::Spades];
    let ranks: [Rank; 6] = [Rank::Nine, Rank::Ten, Rank::Jack, Rank::Queen, Rank::King, Rank::Ace];
    let mut result: Vec<Card> = Vec::new();
    let mut s: usize = 0;
    while s < 4
        invariant
            s <= 4,
            result@.len() == 6 * s,
            forall|i: int|
                0 <= i < result@.len() ==> result@[i] == (Card {
                    suit: suit_of_index(i / 6),
                    rank: rank_of_index(i % 6),
                }),
        decreases 4 - s,
    {
        let mut r: usize = 0;
        while r < 6
            invariant
                s < 4,
                r <= 6,
                result@.len() == 6 * s + r,
                forall|i: int|
                    0 <= i < result@.len() ==> result@[i] == (Card {
                        suit: suit_of_index(i / 6),
                        rank: rank_of_index(i % 6),
                    }),
            decreases 6 - r,
        {
            let suit = if s == 0 {
                Suit::Diamonds
            } else if s == 1 {
                Suit::Hearts
            } else if s == 2 {
                Suit::Clubs
            } else {
                Suit::Spades
            };
            let rank = if r == 0 {
                Rank::Nine
            } else if r == 1 {
                Rank::Ten
            } else if r == 2 {
                Rank::Jack
            } else if r == 3 {
                Rank::Queen
            } else if r == 4 {
                Rank::King
            } else {
                Rank::Ace
            };
            result.push(Card { suit, rank });
            proof {
                let i: int = result@.len() - 1;
                assert(i / 6 == s && i % 6 == r) by (nonlinear_arith)
                    requires
                        i == 6 * s + r,
                        0 <= s < 4,
                        0 <= r < 6,
                ;
            }
            r += 1;
        }
        s += 1;
    }
    proof {
        assert(result@ =~= full_deck());
    }
    result
}

/// A deck of cards, dealt from the back.
pub struct Deck {
    pub cards: Vec<Card>,
}

impl Deck {
    /// A fresh, unshuffled 24-card deck.
    pub fn new() -> (d: Deck)
        ensures
            d.cards@ == full_deck(),
    {
        Deck { cards: create_all_card_combos() }
    }

    /// Permutes the deck with a generator seeded by `seed`.
    pub fn shuffle(&mut self, seed: u64)
        ensures
            final(self).cards@ == utils::shuffled(seed, old(self).cards@),
            final(self).cards@.to_multiset() == old(self).cards@.to_multiset(),
            final(self).cards@.len() == old(self).cards@.len(),
    {
        utils::shuffle_with_seed(seed, &mut self.cards);
    }

    /// Removes and returns the last `num` cards of the deck.
    pub fn deal_n_cards(&mut self, num: usize) -> (dealt: Vec<Card>)
        requires
            num <= old(self).cards@.len(),
        ensures
            final(self).cards@ == old(self).cards@.take(old(self).cards@.len() - num),
            dealt@ == old(self).cards@.skip(old(self).cards@.len() - num),
    {
        let at: usize = self.cards.len() - num;
        let dealt = self.cards.split_off(at);
        proof {
            assert(self.cards@ =~= old(self).cards@.take(old(self).cards@.len() - num));
            assert(dealt@ =~= old(self).cards@.skip(old(self).cards@.len() - num));
        }
        dealt
    }
}

} // verus!
