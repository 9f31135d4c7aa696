use euchre_rs::card::{Card, Rank, Suit};

#[test]
fn card_create_card() {
    let card: Card = Card::new(Suit::Hearts, Rank::Ten);
    assert_eq!(Suit::Hearts, card.suit());
}

#[test]
fn create_card() {
    let card: Card = Card::new(Suit::Hearts, Rank::Ten);
    assert_eq!(Suit::Hearts, card.suit());
    assert_eq!(Rank::Ten, card.rank());
}

#[test]
fn is_left() {
    assert!(Card::new(Suit::Clubs, Rank::Jack).is_left(Suit::Spades));
    assert!(!Card::new(Suit::Clubs, Rank::Jack).is_left(Suit::Clubs));
    assert!(!Card::new(Suit::Clubs, Rank::Nine).is_left(Suit::Spades));
    assert!(!Card::new(Suit::Clubs, Rank::Jack).is_left(Suit::Diamonds));
}

#[test]
fn is_right() {
    assert!(!Card::new(Suit::Clubs, Rank::Jack).is_right(Suit::Spades));
    assert!(Card::new(Suit::Clubs, Rank::Jack).is_right(Suit::Clubs));
    assert!(!Card::new(Suit::Clubs, Rank::Nine).is_right(Suit::Spades));
    assert!(!Card::new(Suit::Diamonds, Rank::Jack).is_right(Suit::Spades));
}

#[test]
fn is_lower_for_bowers() {
    let trump: Suit = Suit::Spades;
    let o_right: Card = Card::new(Suit::Spades, Rank::Jack);
    let o_left: Card = Card::new(Suit::Clubs, Rank::Jack);
    assert!(Card::new(Suit::Diamonds, Rank::Ace).is_lower(trump, o_right));
    assert!(Card::new(Suit::Diamonds, Rank::Ace).is_lower(trump, o_left));
    assert!(o_left.is_lower(trump, o_right));
    assert!(!o_right.is_lower(trump, o_left));
}

#[test]
fn card_to_string() {
    assert_eq!("??", Card::new(Suit::Unset, Rank::Unset).text());
    assert_eq!("SA", Card::new(Suit::Spades, Rank::Ace).text());
    assert_eq!("C9", Card::new(Suit::Clubs, Rank::Nine).text());
}

#[test]
fn left_bower_beats_plain_cards() {
    // with spades as trump, the clubs jack is effectively a spade: it is
    // judged higher than any non-trump card and lower only than the
    // spades jack
    let trump: Suit = Suit::Spades;
    let left: Card = Card::new(Suit::Clubs, Rank::Jack);
    let right: Card = Card::new(Suit::Spades, Rank::Jack);
    for suit in [Suit::Diamonds, Suit::Hearts, Suit::Clubs] {
        for rank in [Rank::Nine, Rank::Ten, Rank::Jack, Rank::Queen, Rank::King, Rank::Ace] {
            let c = Card::new(suit, rank);
            if c.eff_suit(trump) != trump {
                assert!(c.is_lower(trump, left));
                assert!(!left.is_lower(trump, c));
            }
        }
    }
    assert!(left.is_lower(trump, right));
    assert!(!right.is_lower(trump, left));
}

#[test]
fn effective_suit_of_left_bower_is_trump() {
    let left: Card = Card::new(Suit::Hearts, Rank::Jack);
    assert_eq!(Suit::Diamonds, left.eff_suit(Suit::Diamonds));
    assert_eq!(Suit::Hearts, left.eff_suit(Suit::Spades));
}
