use euchre_rs::card::{Card, Rank, Suit};
use euchre_rs::dealer::Dealer;
use euchre_rs::deck::{create_all_card_combos, Deck};
use euchre_rs::player::Player;

#[test]
fn init_dealer() {
    let mut dealer: Dealer = Dealer::new(1, false);

    assert_eq!(dealer.flip_top_card(), Card::new(Suit::Spades, Rank::Ace));
}

#[test]
fn shuffle_is_rdm() {
    let mut dealer: Dealer = Dealer::new(1, false);

    dealer.shuffle();
    assert_eq!(dealer.flip_top_card(), Card::new(Suit::Clubs, Rank::Ten));
}

#[test]
fn shuffle_with_same_seed_repeats() {
    let mut first: Dealer = Dealer::new(7, false);
    let mut second: Dealer = Dealer::new(7, false);
    first.shuffle();
    second.shuffle();
    for _ in 0..24 {
        assert_eq!(first.flip_top_card(), second.flip_top_card());
    }
}

#[test]
fn seat_draw_changes_the_shuffle() {
    // a dealer-seat draw consumes the head of the generator's stream, so
    // the same seed deals a different deck afterwards
    let mut plain: Dealer = Dealer::new(3, false);
    let mut after_draw: Dealer = Dealer::new(3, true);
    plain.shuffle();
    after_draw.shuffle();
    let mut any_difference = false;
    for _ in 0..24 {
        if plain.flip_top_card() != after_draw.flip_top_card() {
            any_difference = true;
        }
    }
    assert!(any_difference);
}

#[test]
fn deal_cards_moves_five() {
    let mut dealer: Dealer = Dealer::new(9, false);
    dealer.shuffle();
    let mut player: Player = Player::new(0);
    dealer.deal_cards(&mut player);
    assert_eq!(5, player.hand_ref().len());
    dealer.deal_cards(&mut player);
    assert_eq!(10, player.hand_ref().len());
}

#[test]
fn deck_has_all_24_combos() {
    let cards = create_all_card_combos();
    assert_eq!(24, cards.len());
    for suit in [Suit::Diamonds, Suit::Hearts, Suit::Clubs, Suit::Spades] {
        for rank in [Rank::Nine, Rank::Ten, Rank::Jack, Rank::Queen, Rank::King, Rank::Ace] {
            assert!(cards.contains(&Card::new(suit, rank)));
        }
    }
}

#[test]
fn deck_deals_from_the_tail() {
    let mut deck: Deck = Deck::new();
    let dealt = deck.deal_n_cards(2);
    assert_eq!(
        dealt,
        vec![
            Card::new(Suit::Spades, Rank::King),
            Card::new(Suit::Spades, Rank::Ace)
        ]
    );
}

#[test]
fn deck_shuffle_permutes() {
    let mut deck: Deck = Deck::new();
    let before = create_all_card_combos();
    deck.shuffle(11);
    let after = deck.deal_n_cards(24);
    assert_ne!(before, after);
    for card in before {
        assert!(after.contains(&card));
    }
}
