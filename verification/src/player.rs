//! A seated player: an identity, a hand of cards and the trick counter for
//! the current round.

use vstd::prelude::*;

use crate::card::Card;

verus! {

/// One of the four seats. Seats 0 and 2 form one team, 1 and 3 the other.
pub struct Player {
    pub player_id: u8,
    pub tricks: u8,
    pub hand: Vec<Card>,
}

impl Player {
    /// A player with the given seat, an empty hand and no tricks.
    pub fn new(p_id: u8) -> (p: Player)
        ensures
            p.player_id == p_id,
            p.tricks == 0,
            p.hand@ == Seq::<Card>::empty(),
    {
        Player { player_id: p_id, tricks: 0, hand: Vec::new() }
    }

    /// Moves every card out of `cards` onto the back of this hand.
    pub fn add_cards(&mut self, cards: &mut Vec<Card>)
        ensures
            final(self).hand@ == old(self).hand@ + old(cards)@,
            final(cards)@ == Seq::<Card>::empty(),
            final(self).player_id == old(self).player_id,
            final(self).tricks == old(self).tricks,
    {
        self.hand.append(cards)
    }

    /// Adds a single card to the back of this hand; the dealer gains the
    /// flipped card this way.
    pub fn push_card(&mut self, card: Card)
        ensures
            final(self).hand@ == old(self).hand@.push(card),
            final(self).player_id == old(self).player_id,
            final(self).tricks == old(self).tricks,
    {
        self.hand.push(card)
    }

    /// Removes the first copy of `card` from this hand; the hand is
    /// unchanged when it holds no such card.
    pub fn remove_card(&mut self, card: Card)
        ensures
            final(self).hand@ == match old(self).hand@.index_of_first(card) {
                Some(i) => old(self).hand@.remove(i),
                None => old(self).hand@,
            },
            final(self).player_id == old(self).player_id,
            final(self).tricks == old(self).tricks,
    {
        let n: usize = self.hand.len();
        let mut i: usize = 0;
        while i < n
            invariant
                n == self.hand@.len(),
                i <= n,
                *self == *old(self),
                forall|j: int| 0 <= j < i ==> self.hand@[j] != card,
            decreases n - i,
        {
            if self.hand[i] == card {
                proof {
                    let h = self.hand@;
                    h.index_of_first_ensures(card);
                    assert(h.contains(card));
                    let idx = h.index_of_first(card).unwrap();
                    assert(h[idx] == card);
                    if idx < i {
                        assert(h[idx] != card);
                    } else if idx > i {
                        assert(h[i as int] != card);
                    }
                    assert(idx == i);
                }
                self.hand.remove(i);
                return;
            }
            i += 1;
        }
        proof {
            assert(!old(self).hand@.contains(card));
            old(self).hand@.index_of_first_ensures(card);
        }
    }

    /// Records one more trick won this round.
    pub fn award_trick(&mut self)
        requires
            old(self).tricks < 255,
        ensures
            final(self).tricks == old(self).tricks + 1,
            final(self).player_id == old(self).player_id,
            final(self).hand == old(self).hand,
    {
        self.tricks += 1;
    }

    /// The number of tricks won this round.
    pub fn get_tricks(&self) -> (t: u8)
        ensures
            t == self.tricks,
    {
        self.tricks
    }

    /// This player's seat id.
    pub fn get_id(&self) -> (id: u8)
        ensures
            id == self.player_id,
    {
        self.player_id
    }

    /// A copy of this player's hand.
    pub fn hand_ref(&self) -> (h: Vec<Card>)
        ensures
            h@ == self.hand@,
    {
        let mut copy: Vec<Card> = Vec::new();
        let n: usize = self.hand.len();
        let mut i: usize = 0;
        while i < n
            invariant
                n == self.hand@.len(),
                i <= n,
                copy@ == self.hand@.take(i as int),
            decreases n - i,
        {
            copy.push(self.hand[i]);
            proof {
                assert(copy@ =~= self.hand@.take(i + 1 as int));
            }
            i += 1;
        }
        proof {
            assert(copy@ =~= self.hand@);
        }
        copy
    }
}

} // verus!
