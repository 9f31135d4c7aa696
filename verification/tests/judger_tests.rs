use euchre_rs::card::{Card, Rank, Suit};
use euchre_rs::judger::Judger;

#[test]
fn calling_team_march() {
    // calling team (caller seat 0) wins all 5 tricks
    let judger = Judger::new();
    let points = judger.judge_round(vec![3, 0, 2, 0], 0);
    assert_eq!(points, vec![2, 0, 2, 0]);
}

#[test]
fn calling_team_makes_its_call() {
    // calling team (caller seat 0) wins 3 tricks, opponents 2
    let judger = Judger::new();
    let points = judger.judge_round(vec![2, 1, 1, 1], 0);
    assert_eq!(points, vec![1, 0, 1, 0]);
}

#[test]
fn calling_team_euchred() {
    // calling team (caller seat 1) wins only 2 tricks; seats 0 and 2 euchre it
    let judger = Judger::new();
    let points = judger.judge_round(vec![2, 1, 1, 1], 1);
    assert_eq!(points, vec![2, 0, 2, 0]);
}

#[test]
fn non_calling_team_sweeps() {
    // the non-calling team (caller seat 0) takes every trick
    let judger = Judger::new();
    let points = judger.judge_round(vec![0, 3, 0, 2], 0);
    assert_eq!(points, vec![0, 2, 0, 2]);
}

#[test]
fn trick_goes_to_highest_trump() {
    let judger = Judger::new();
    let center = vec![
        Card::new(Suit::Hearts, Rank::Ace),
        Card::new(Suit::Hearts, Rank::Nine),
        Card::new(Suit::Spades, Rank::Ten),
        Card::new(Suit::Hearts, Rank::King),
    ];
    let order = vec![2, 3, 0, 1];
    // the lone trump card wins over every heart, ace included
    assert_eq!(0, judger.judge_trick(Suit::Spades, &center, &order));
}

#[test]
fn trick_lead_controls_without_trump() {
    let judger = Judger::new();
    let center = vec![
        Card::new(Suit::Hearts, Rank::Ten),
        Card::new(Suit::Hearts, Rank::King),
        Card::new(Suit::Diamonds, Rank::Ace),
        Card::new(Suit::Hearts, Rank::Queen),
    ];
    let order = vec![1, 2, 3, 0];
    // no spade was played: the highest card of the led suit wins, and the
    // off-suit ace wins nothing
    assert_eq!(2, judger.judge_trick(Suit::Spades, &center, &order));
}

#[test]
fn trick_right_bower_beats_left_bower() {
    let judger = Judger::new();
    let center = vec![
        Card::new(Suit::Clubs, Rank::Jack),
        Card::new(Suit::Spades, Rank::Jack),
        Card::new(Suit::Spades, Rank::Ace),
        Card::new(Suit::Hearts, Rank::Ace),
    ];
    let order = vec![0, 1, 2, 3];
    assert_eq!(1, judger.judge_trick(Suit::Spades, &center, &order));
}
