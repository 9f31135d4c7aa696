//! The dealer of a round: builds the 24-card deck, shuffles it with the
//! game's seeded generator, deals five cards to each seat and flips the
//! kitty card. Three cards stay face-down and unused, as the rules ask.

use vstd::prelude::*;

use crate::card::Card;
use crate::deck::full_deck;
use crate::deck::create_all_card_combos;
use crate::player::Player;
use crate::utils;

verus! {

/// Holds the deck of a single round together with the seed that drives its
/// shuffle. `seat_drawn` records whether the generator for this seed
/// already yielded the dealer seat before the shuffle.
pub struct Dealer {
    pub euchre_deck: Vec<Card>,
    pub seed: u64,
    pub seat_drawn: bool,
}

/// The deck a dealer holds right after its shuffle, as a function of the
/// seed and of whether a seat draw preceded the shuffle.
pub open spec fn shuffled_deck(seed: u64, seat_drawn: bool) -> Seq<Card> {
    if seat_drawn {
        utils::shuffled_after_draw(seed, full_deck())
    } else {
        utils::shuffled(seed, full_deck())
    }
}

impl Dealer {
    /// A dealer holding a fresh unshuffled deck, whose shuffle will be
    /// driven by a generator seeded with `seed`; `seat_drawn` says whether
    /// that generator already yielded the dealer seat.
    pub fn new(seed: u64, seat_drawn: bool) -> (d: Dealer)
        ensures
            d.euchre_deck@ == full_deck(),
            d.seed == seed,
            d.seat_drawn == seat_drawn,
    {
        Dealer { euchre_deck: create_all_card_combos(), seed, seat_drawn }
    }

    /// Permutes the deck with the seeded generator.
    pub fn shuffle(&mut self)
        ensures
            final(self).euchre_deck@ == if old(self).seat_drawn {
                utils::shuffled_after_draw(old(self).seed, old(self).euchre_deck@)
            } else {
                utils::shuffled(old(self).seed, old(self).euchre_deck@)
            },
            final(self).euchre_deck@.to_multiset() == old(self).euchre_deck@.to_multiset(),
            final(self).euchre_deck@.len() == old(self).euchre_deck@.len(),
            final(self).seed == old(self).seed,
            final(self).seat_drawn == old(self).seat_drawn,
    {
        if self.seat_drawn {
            utils::shuffle_after_seat_draw(self.seed, &mut self.euchre_deck);
        } else {
            utils::shuffle_with_seed(self.seed, &mut self.euchre_deck);
        }
    }

    /// Moves the five cards at the deck's tail into `player`'s hand.
    pub fn deal_cards(&mut self, player: &mut Player)
        requires
            old(self).euchre_deck@.len() >= 5,
        ensures
            final(self).euchre_deck@ == old(self).euchre_deck@.take(
                old(self).euchre_deck@.len() - 5,
            ),
            final(player).hand@ == old(player).hand@ + old(self).euchre_deck@.skip(
                old(self).euchre_deck@.len() - 5,
            ),
            final(player).player_id == old(player).player_id,
            final(player).tricks == old(player).tricks,
            final(self).seed == old(self).seed,
            final(self).seat_drawn == old(self).seat_drawn,
    {
        let at: usize = self.euchre_deck.len() - 5;
        let mut dealt = self.euchre_deck.split_off(at);
        proof {
            assert(self.euchre_deck@ =~= old(self).euchre_deck@.take(
                old(self).euchre_deck@.len() - 5,
            ));
            assert(dealt@ =~= old(self).euchre_deck@.skip(old(self).euchre_deck@.len() - 5));
        }
        player.add_cards(&mut dealt);
    }

    /// Removes and returns the deck's top (last) card: the flipped kitty
    /// card, once all four hands are dealt.
    pub fn flip_top_card(&mut self) -> (c: Card)
        requires
            old(self).euchre_deck@.len() >= 1,
        ensures
            c == old(self).euchre_deck@.last(),
            final(self).euchre_deck@ == old(self).euchre_deck@.drop_last(),
            final(self).seed == old(self).seed,
            final(self).seat_drawn == old(self).seat_drawn,
    {
        let c = self.euchre_deck.pop().unwrap();
        c
    }
}

} // verus!
