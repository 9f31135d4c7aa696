//! The card model: suits, ranks, and the trick-relative comparisons
//! (bower detection and card ordering under a trump suit).

use vstd::prelude::*;

verus! {

/// A card's suit. `Unset` is a construction-time sentinel: it may appear
/// while template or deck data is being built, never in a live game state.
#[derive(Debug, Copy, Clone, Eq, PartialEq, Structural)]
pub enum Suit {
    Diamonds,
    Hearts,
    Clubs,
    Spades,
    Unset,
}

/// A card's rank, ordered Nine < Ten < Jack < Queen < King < Ace for plain
/// (non-bower) comparisons. `Unset` is the same construction-time sentinel
/// as for `Suit`.
#[derive(Debug, Copy, Clone, Eq, PartialEq, Structural)]
pub enum Rank {
    Nine,
    Ten,
    Jack,
    Queen,
    King,
    Ace,
    Unset,
}

/// An immutable (suit, rank) pair with structural equality.
#[derive(Debug, Copy, Clone, Eq, PartialEq, Structural)]
pub struct Card {
    pub suit: Suit,
    pub rank: Rank,
}

/// The numeric strength of a rank in plain comparisons; the sentinel is
/// below every concrete rank.
pub open spec fn rank_strength(r: Rank) -> int {
    match r {
        Rank::Unset => 0,
        Rank::Nine => 9,
        Rank::Ten => 10,
        Rank::Jack => 11,
        Rank::Queen => 12,
        Rank::King => 13,
        Rank::Ace => 14,
    }
}

/// The suit of the same color as `s`: Clubs pairs with Spades and
/// Diamonds with Hearts.
pub open spec fn same_color(s: Suit) -> Suit {
    match s {
        Suit::Clubs => Suit::Spades,
        Suit::Diamonds => Suit::Hearts,
        Suit::Spades => Suit::Clubs,
        Suit::Hearts => Suit::Diamonds,
        Suit::Unset => Suit::Unset,
    }
}

/// A suit drawn from the four real suits, not the sentinel.
pub open spec fn concrete_suit(s: Suit) -> bool {
    s != Suit::Unset
}

/// A rank drawn from the six real ranks, not the sentinel.
pub open spec fn concrete_rank(r: Rank) -> bool {
    r != Rank::Unset
}

/// A card whose suit and rank are both concrete.
pub open spec fn concrete_card(c: Card) -> bool {
    concrete_suit(c.suit) && concrete_rank(c.rank)
}

impl Card {
    /// Whether this card is the left bower for `trump`: the Jack of the
    /// same-color suit, counted as trump of second-highest rank.
    pub open spec fn spec_is_left(self, trump: Suit) -> bool {
        self.suit == same_color(trump) && self.rank == Rank::Jack
    }

    /// Whether this card is the right bower for `trump`: the Jack of the
    /// trump suit itself, the highest card of the round.
    pub open spec fn spec_is_right(self, trump: Suit) -> bool {
        self.suit == trump && self.rank == Rank::Jack
    }

    /// The card's suit for ranking purposes: trump if the card is the left
    /// bower, else its own suit.
    pub open spec fn effective_suit(self, trump: Suit) -> Suit {
        if self.spec_is_left(trump) {
            trump
        } else {
            self.suit
        }
    }

    /// Whether `self` loses to `other` under `trump`, with `self` read as
    /// the card holding the led position: equal effective suits compare by
    /// rank with the right bower breaking the bower tie, a trump beats any
    /// non-trump, and a card of neither the led effective suit nor trump
    /// never wins.
    pub open spec fn spec_is_lower(self, trump: Suit, other: Card) -> bool {
        if self.effective_suit(trump) == other.effective_suit(trump) {
            !(rank_strength(self.rank) > rank_strength(other.rank) || self.spec_is_right(trump))
        } else {
            other.effective_suit(trump) == trump
        }
    }

    /// Creates a new `Card` with the given suit and rank.
    pub fn new(suit: Suit, rank: Rank) -> (c: Card)
        ensures
            c.suit == suit,
            c.rank == rank,
    {
        Card { suit, rank }
    }

    /// Returns this card's `Suit`.
    pub fn suit(&self) -> (s: Suit)
        ensures
            s == self.suit,
    {
        self.suit
    }

    /// Returns this card's `Rank`.
    pub fn rank(&self) -> (r: Rank)
        ensures
            r == self.rank,
    {
        self.rank
    }

    /// Returns whether this card is the left bower for `trump`.
    pub fn is_left(&self, trump: Suit) -> (b: bool)
        requires
            concrete_suit(trump),
        ensures
            b == self.spec_is_left(trump),
    {
        let partner = match trump {
            Suit::Clubs => Suit::Spades,
            Suit::Diamonds => Suit::Hearts,
            Suit::Spades => Suit::Clubs,
            Suit::Hearts => Suit::Diamonds,
            Suit::Unset => Suit::Unset,
        };
        self.suit == partner && self.rank == Rank::Jack
    }

    /// Returns whether this card is the right bower for `trump`.
    pub fn is_right(&self, trump: Suit) -> (b: bool)
        ensures
            b == self.spec_is_right(trump),
    {
        self.suit == trump && self.rank == Rank::Jack
    }


    /// Returns this card's suit for ranking purposes under `trump`.
    pub fn eff_suit(&self, trump: Suit) -> (s: Suit)
        requires
            concrete_suit(trump),
        ensures
            s == self.effective_suit(trump),
    {
        if self.is_left(trump) {
            trump
        } else {
            self.suit
        }
    }


    /// Returns this card's two-character text: suit then rank, with `?`
    /// for a sentinel.
    pub fn text(&self) -> (s: String)
        ensures
            s@ == card_text(*self),
    {
        let mut s: String = suit_str(self.suit).to_owned();
        s.append(rank_str(self.rank));
        s
    }

    /// Returns whether `self` is lower than `other` given `trump`, reading
    /// `self` as the card in the led position.
    pub fn is_lower(&self, trump: Suit, other: Card) -> (b: bool)
        requires
            concrete_suit(trump),
        ensures
            b == self.spec_is_lower(trump, other),
    {
        let eff_suit: Suit = if self.is_left(trump) {
            trump
        } else {
            self.suit
        };
        let o_eff_suit: Suit = if other.is_left(trump) {
            trump
        } else {
            other.suit
        };
        if eff_suit == o_eff_suit {
            !(rank_value(self.rank) > rank_value(other.rank) || self.is_right(trump))
        } else {
            o_eff_suit == trump
        }
    }
}

/// Returns the numeric strength of `r` for plain rank comparisons.
pub fn rank_value(r: Rank) -> (v: u8)
    ensures
        v == rank_strength(r),
{
    match r {
        Rank::Unset => 0,
        Rank::Nine => 9,
        Rank::Ten => 10,
        Rank::Jack => 11,
        Rank::Queen => 12,
        Rank::King => 13,
        Rank::Ace => 14,
    }
}


/// Bower ranking law: under a concrete trump suit, the left bower (the
/// same-color Jack) is judged higher than every card that is not
/// effectively trump, and lower than the right bower (the trump Jack) when
/// the two meet in a trick.
pub proof fn lemma_bower_ranking(trump: Suit, c: Card)
    requires
        concrete_suit(trump),
        c.effective_suit(trump) != trump,
    ensures
        c.spec_is_lower(trump, Card { suit: same_color(trump), rank: Rank::Jack }),
        !(Card { suit: same_color(trump), rank: Rank::Jack }).spec_is_lower(trump, c),
        (Card { suit: same_color(trump), rank: Rank::Jack }).spec_is_lower(
            trump,
            Card { suit: trump, rank: Rank::Jack },
        ),
        !(Card { suit: trump, rank: Rank::Jack }).spec_is_lower(
            trump,
            Card { suit: same_color(trump), rank: Rank::Jack },
        ),
{
}


/// The one-character text of a suit.
pub open spec fn suit_text(s: Suit) -> Seq<char> {
    match s {
        Suit::Diamonds => "D"@,
        Suit::Hearts => "H"@,
        Suit::Clubs => "C"@,
        Suit::Spades => "S"@,
        Suit::Unset => "?"@,
    }
}

/// The one-character text of a rank.
pub open spec fn rank_text(r: Rank) -> Seq<char> {
    match r {
        Rank::Nine => "9"@,
        Rank::Ten => "T"@,
        Rank::Jack => "J"@,
        Rank::Queen => "Q"@,
        Rank::King => "K"@,
        Rank::Ace => "A"@,
        Rank::Unset => "?"@,
    }
}

/// The two-character text of a card: its suit then its rank.
pub open spec fn card_text(c: Card) -> Seq<char> {
    suit_text(c.suit) + rank_text(c.rank)
}

/// Returns the one-character text of `s`.
fn suit_str(s: Suit) -> (r: &'static str)
    ensures
        r@ == suit_text(s),
{
    match s {
        Suit::Diamonds => "D",
        Suit::Hearts => "H",
        Suit::Clubs => "C",
        Suit::Spades => "S",
        Suit::Unset => "?",
    }
}

/// Returns the one-character text of `r`.
fn rank_str(r: Rank) -> (s: &'static str)
    ensures
        s@ == rank_text(r),
{
    match r {
        Rank::Nine => "9",
        Rank::Ten => "T",
        Rank::Jack => "J",
        Rank::Queen => "Q",
        Rank::King => "K",
        Rank::Ace => "A",
        Rank::Unset => "?",
    }
}

} // verus!
