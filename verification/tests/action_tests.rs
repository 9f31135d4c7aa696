use euchre_rs::action::Action;
use euchre_rs::card::{Card, Rank, Suit};

#[test]
fn action_from_int() {
    assert_eq!(Action::from_integer(13).unwrap(), Action::DKPlay);
    assert_eq!(Action::from_integer(0).unwrap(), Action::Pass);
}

#[test]
fn action_from_invalid_int() {
    assert_eq!(
        Action::from_integer(54).unwrap_err(),
        "Integer 54 has no corresponding Action."
    );
}

#[test]
fn action_to_card() {
    assert_eq!(
        Action::action_to_card(Action::C9Discard).unwrap(),
        Action::action_to_card(Action::C9Play).unwrap()
    );

    assert_eq!(
        Action::action_to_card(Action::HADiscard).unwrap(),
        Action::action_to_card(Action::HAPlay).unwrap()
    );
}

#[test]
fn string_to_action() {
    assert_eq!(Action::C9Play, Action::from_name("c9PlAy").unwrap());
}

#[test]
fn bidding_actions_have_no_card() {
    assert_eq!(
        Action::action_to_card(Action::Pass).unwrap_err(),
        "The action Pass has no mapping to a Card"
    );
    assert_eq!(
        Action::action_to_card(Action::CallS).unwrap_err(),
        "The action CallS has no mapping to a Card"
    );
}

#[test]
fn three_digit_integer_message() {
    assert_eq!(
        Action::from_integer(255).unwrap_err(),
        "Integer 255 has no corresponding Action."
    );
}

#[test]
fn unknown_name_is_rejected() {
    assert!(Action::from_name("flip the table").is_err());
    assert_eq!(Action::Pick, Action::from_name("PICK").unwrap());
}

#[test]
fn round_trip_all_cards() {
    // every concrete card survives encoding and decoding, both as a play
    // and as a discard, and the two ids sit 24 apart
    for suit in [Suit::Diamonds, Suit::Hearts, Suit::Clubs, Suit::Spades] {
        for rank in [Rank::Nine, Rank::Ten, Rank::Jack, Rank::Queen, Rank::King, Rank::Ace] {
            let card = Card::new(suit, rank);
            for is_play in [true, false] {
                let action = Action::card_to_action(&card, is_play);
                assert_eq!(card, Action::action_to_card(action).unwrap());
            }
            let play = Action::card_to_action(&card, true);
            let discard = Action::card_to_action(&card, false);
            assert_eq!(play.id() + 24, discard.id());
            assert!(6 <= play.id() && play.id() <= 29);
        }
    }
}
