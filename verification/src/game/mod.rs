//! The game state machine: it owns all authoritative state, deals a round,
//! runs bidding, trick play and scoring, and exposes a player-scoped view
//! plus the legal-action list for the seat whose turn it is.
//!
//! Every transition is also written down as a spec-level function over
//! [`GameView`], and each exec step is proved equal to it, so a game is a
//! mathematical function of its construction seed and the actions fed in.

use vstd::prelude::*;

use crate::action::{
    discard_action_of, play_action_of, spec_action_card, spec_id, Action, FlippedChoice,
};
use crate::card::{concrete_card, concrete_suit, Card, Suit};
use crate::dealer::Dealer;
use crate::deck::full_deck;
use crate::judger::{round_points, spec_judge_trick, Judger};
use crate::player::Player;
use crate::utils;

pub mod laws;
pub mod scoped_state;

use self::scoped_state::ScopedGameState;

verus! {

/// The mathematical model of a game state; the fields mirror
/// [`EuchreGame`], with sequences in place of vectors.
pub struct GameView {
    pub is_over: bool,
    pub scores: Option<Seq<u8>>,
    pub hands: Seq<Seq<Card>>,
    pub tricks: Seq<u8>,
    pub curr: u8,
    pub dealer: u8,
    pub flipped_card: Card,
    pub flipped_choice: Option<FlippedChoice>,
    pub calling: Option<u8>,
    pub prev_played: Seq<Seq<Card>>,
    pub center: Option<Seq<Card>>,
    pub order: Seq<u8>,
    pub trump: Option<Suit>,
    pub led_suit: Option<Suit>,
}


/// A card together with the seat that played it.
pub struct Played(pub u8, pub Card);

/// The seat left of `p`.
pub open spec fn next_seat(p: u8) -> u8 {
    (((p as int) + 1) % 4) as u8
}

/// The four seats in play order, starting from `p`.
pub open spec fn order_from(p: u8) -> Seq<u8> {
    Seq::new(4, |i: int| (((p as int) + i) % 4) as u8)
}

/// How many cards the current trick holds.
pub open spec fn center_len(v: GameView) -> int {
    match v.center {
        Some(c) => c.len() as int,
        None => 0,
    }
}

/// The sum of all four seats' trick counts.
pub open spec fn tricks_total(v: GameView) -> int {
    v.tricks[0] + v.tricks[1] + v.tricks[2] + v.tricks[3]
}

/// The position of `seat` in the current play order.
pub open spec fn seat_pos(v: GameView, seat: int) -> int {
    (seat - v.order[0] + 4) % 4
}

/// Every card of `s` is concrete: no sentinel suit or rank.
pub open spec fn concrete_cards(s: Seq<Card>) -> bool {
    forall|i: int| 0 <= i < s.len() ==> concrete_card(s[i])
}

/// The explicit phase a game state is in; legal-action generation and the
/// transitions dispatch over this tag.
#[derive(Debug, Copy, Clone, Eq, PartialEq, Structural)]
pub enum GamePhase {
    /// The round is scored; no further action is accepted.
    Over,
    /// The dealer picked the flip up and must shed a sixth card.
    Discarding,
    /// Trump is open and the flipped card still faces up: pick or pass.
    ChoosingTrumpFlipAvailable,
    /// Trump is open and the flip was turned down: call a suit or pass.
    ChoosingTrumpFlipTurnedDown,
    /// Trump is fixed and no card has been led this trick.
    Leading,
    /// Trump is fixed and a suit has been led.
    Following,
}

/// The phase of a state, read off the authoritative fields.
pub open spec fn phase_of(v: GameView) -> GamePhase {
    if v.is_over {
        GamePhase::Over
    } else if v.trump is None {
        if v.flipped_choice is None {
            GamePhase::ChoosingTrumpFlipAvailable
        } else {
            GamePhase::ChoosingTrumpFlipTurnedDown
        }
    } else if v.hands[v.curr as int].len() == 6 {
        GamePhase::Discarding
    } else if v.led_suit is None {
        GamePhase::Leading
    } else {
        GamePhase::Following
    }
}

/// Field-level sanity of a state: shapes, ranges, concreteness, and the
/// standing couplings (`calling` is set exactly when trump is, a led suit
/// exists exactly when a trick is in the center, a center never exceeds
/// the trick size).
pub open spec fn wf_base(v: GameView) -> bool {
    &&& v.hands.len() == 4
    &&& v.tricks.len() == 4
    &&& v.prev_played.len() == 4
    &&& v.order.len() == 4
    &&& v.curr < 4
    &&& v.dealer < 4
    &&& v.order[0] < 4
    &&& (forall|i: int| 0 <= i < 4 ==> #[trigger] v.order[i] == ((v.order[0] + i) % 4) as u8)
    &&& (forall|i: int| 0 <= i < 4 ==> concrete_cards(#[trigger] v.hands[i]))
    &&& (forall|i: int| 0 <= i < 4 ==> concrete_cards(#[trigger] v.prev_played[i]))
    &&& concrete_card(v.flipped_card)
    &&& (v.trump matches Some(t) ==> concrete_suit(t))
    &&& (v.led_suit matches Some(l) ==> concrete_suit(l))
    &&& (v.calling matches Some(c) ==> c < 4)
    &&& (v.calling is Some <==> v.trump is Some)
    &&& (v.led_suit is Some <==> v.center is Some)
    &&& (v.center matches Some(c) ==> 1 <= c.len() <= 3 && concrete_cards(c))
    &&& (v.center is Some ==> v.trump is Some)
    &&& (v.scores matches Some(s) ==> s.len() == 4)
    &&& (v.is_over <==> v.scores is Some)
    &&& (v.is_over ==> v.trump is Some)
}

/// What holds throughout bidding and the dealer's discard: no trick has
/// started, nothing is scored, and the lead of the first trick is the seat
/// left of the dealer.
pub open spec fn bidding_static(v: GameView) -> bool {
    &&& v.center is None
    &&& v.led_suit is None
    &&& !v.is_over
    &&& (forall|i: int| 0 <= i < 4 ==> v.tricks[i] == 0)
    &&& (forall|i: int| 0 <= i < 4 ==> v.prev_played[i].len() == 0)
    &&& v.order[0] == next_seat(v.dealer)
}

/// The phase-dependent part of well-formedness: hand sizes through
/// bidding, and through trick play the accounting that ties hand sizes,
/// play histories, trick counts and the center together.
pub open spec fn wf_phase(v: GameView) -> bool {
    if v.trump is None {
        &&& bidding_static(v)
        &&& (forall|i: int| 0 <= i < 4 ==> v.hands[i].len() == 5)
        &&& v.flipped_choice != Some(FlippedChoice::PickedUp)
    } else if v.flipped_choice == Some(FlippedChoice::PickedUp) && v.hands[v.dealer as int].len()
        == 6 {
        &&& bidding_static(v)
        &&& v.curr == v.dealer
        &&& v.trump == Some(v.flipped_card.suit)
        &&& (forall|i: int| 0 <= i < 4 && i != v.dealer ==> v.hands[i].len() == 5)
    } else {
        &&& v.flipped_choice is Some
        &&& (forall|i: int| 0 <= i < 4 ==> v.hands[i].len() + v.prev_played[i].len() == 5)
        &&& (forall|i: int|
            0 <= i < 4 ==> v.prev_played[i].len() == tricks_total(v) + if seat_pos(v, i)
                < center_len(v) {
                1int
            } else {
                0int
            })
        &&& (v.center is Some ==> v.curr == v.order[center_len(v)])
        &&& (v.center is None && !v.is_over ==> v.curr == v.order[0])
        &&& tricks_total(v) <= 5
        &&& (!v.is_over ==> tricks_total(v) <= 4)
        &&& (v.is_over ==> tricks_total(v) == 5 && v.center is None && v.scores == Some(
            round_points(v.tricks[0] + v.tricks[2], v.calling.unwrap() % 2 == 0),
        ))
    }
}

/// A reachable game state: field sanity plus the phase accounting.
pub open spec fn wf_view(v: GameView) -> bool {
    wf_base(v) && wf_phase(v)
}

/// The Play actions of a sequence of cards, in hand order.
pub open spec fn hand_play_actions(hand: Seq<Card>) -> Seq<Action> {
    hand.map_values(|c: Card| play_action_of(c))
}

/// The Discard actions of a sequence of cards, in hand order.
pub open spec fn hand_discard_actions(hand: Seq<Card>) -> Seq<Action> {
    hand.map_values(|c: Card| discard_action_of(c))
}

/// The cards of `hand` whose effective suit under `trump` is `led`.
pub open spec fn follow_cards(hand: Seq<Card>, trump: Suit, led: Suit) -> Seq<Card> {
    hand.filter(|c: Card| c.effective_suit(trump) == led)
}

/// The Call actions open once a flip of suit `turned_down` was turned
/// down: one per suit other than it, in the fixed call order.
pub open spec fn call_actions(turned_down: Suit) -> Seq<Action> {
    match turned_down {
        Suit::Hearts => seq![Action::CallD, Action::CallS, Action::CallC],
        Suit::Diamonds => seq![Action::CallH, Action::CallS, Action::CallC],
        Suit::Spades => seq![Action::CallH, Action::CallD, Action::CallC],
        Suit::Clubs => seq![Action::CallH, Action::CallD, Action::CallS],
        Suit::Unset => Seq::empty(),
    }
}

/// The legal actions of a state, one dispatch per phase: discards for a
/// six-card hand, pick or pass while the flip is up, the open calls (plus
/// pass for everyone but the dealer) once it is down, any card on a lead,
/// and cards following the led effective suit where the hand has one.
pub open spec fn legal_actions_of(v: GameView) -> Seq<Action> {
    match phase_of(v) {
        GamePhase::Over => Seq::empty(),
        GamePhase::Discarding => hand_discard_actions(v.hands[v.curr as int]),
        GamePhase::ChoosingTrumpFlipAvailable => seq![Action::Pick, Action::Pass],
        GamePhase::ChoosingTrumpFlipTurnedDown => call_actions(v.flipped_card.suit) + if v.curr
            != v.dealer {
            seq![Action::Pass]
        } else {
            Seq::empty()
        },
        GamePhase::Leading => hand_play_actions(v.hands[v.curr as int]),
        GamePhase::Following => {
            let followers = follow_cards(
                v.hands[v.curr as int],
                v.trump.unwrap(),
                v.led_suit.unwrap(),
            );
            if followers.len() > 0 {
                hand_play_actions(followers)
            } else {
                hand_play_actions(v.hands[v.curr as int])
            }
        },
    }
}

/// The suit a Call action names.
pub open spec fn call_suit(a: Action) -> Suit {
    match a {
        Action::CallH => Suit::Hearts,
        Action::CallD => Suit::Diamonds,
        Action::CallS => Suit::Spades,
        Action::CallC => Suit::Clubs,
        _ => Suit::Unset,
    }
}

/// `s` with its first copy of `c` removed, unchanged when it has none.
pub open spec fn remove_first(s: Seq<Card>, c: Card) -> Seq<Card> {
    match s.index_of_first(c) {
        Some(i) => s.remove(i),
        None => s,
    }
}

/// Taking the Pick action: the dealer's hand gains the flipped card, its
/// suit becomes trump, the picker is recorded as the caller, and the
/// dealer must act next (the discard).
pub open spec fn pick_view(v: GameView) -> GameView {
    GameView {
        hands: v.hands.update(v.dealer as int, v.hands[v.dealer as int].push(v.flipped_card)),
        trump: Some(v.flipped_card.suit),
        flipped_choice: Some(FlippedChoice::PickedUp),
        calling: Some(v.curr),
        curr: v.dealer,
        ..v
    }
}

/// Taking the Pass action: the dealer passing turns the flip down; the
/// turn moves left.
pub open spec fn pass_view(v: GameView) -> GameView {
    GameView {
        flipped_choice: if v.curr == v.dealer {
            Some(FlippedChoice::TurnedDown)
        } else {
            v.flipped_choice
        },
        curr: next_seat(v.curr),
        ..v
    }
}

/// Taking a Call action: the named suit becomes trump, the caller is
/// recorded, and the seat left of the dealer leads the first trick.
pub open spec fn call_view(v: GameView, a: Action) -> GameView {
    GameView {
        trump: Some(call_suit(a)),
        calling: Some(v.curr),
        curr: next_seat(v.dealer),
        ..v
    }
}

/// Taking a Discard action: the named card leaves the dealer's hand and
/// the seat left of the dealer leads the first trick.
pub open spec fn discard_view(v: GameView, a: Action) -> GameView {
    let c = spec_action_card(a).unwrap();
    GameView {
        hands: v.hands.update(v.curr as int, remove_first(v.hands[v.curr as int], c)),
        curr: next_seat(v.curr),
        ..v
    }
}

/// Playing one card: it moves from the hand to the center and the seat's
/// play history; the first card of a trick sets the led suit to its
/// effective suit, so leading the left bower leads trump.
pub open spec fn play_card_view(v: GameView, c: Card) -> GameView {
    GameView {
        hands: v.hands.update(v.curr as int, remove_first(v.hands[v.curr as int], c)),
        prev_played: v.prev_played.update(
            v.curr as int,
            v.prev_played[v.curr as int].push(c),
        ),
        center: match v.center {
            Some(cc) => Some(cc.push(c)),
            None => Some(seq![c]),
        },
        led_suit: if v.center is None {
            Some(c.effective_suit(v.trump.unwrap()))
        } else {
            v.led_suit
        },
        curr: next_seat(v.curr),
        ..v
    }
}

/// Closing a full trick: the judged winner is awarded it, leads the next
/// trick, and the center and led suit reset.
pub open spec fn end_trick_view(v: GameView) -> GameView {
    let winner = spec_judge_trick(v.trump.unwrap(), v.center.unwrap(), v.order);
    GameView {
        tricks: v.tricks.update(winner as int, (v.tricks[winner as int] + 1) as u8),
        curr: winner,
        center: None,
        led_suit: None,
        order: order_from(winner),
        ..v
    }
}

/// Ending the round: the score vector is computed from the trick counts
/// and the calling team.
pub open spec fn finish_round_view(v: GameView) -> GameView {
    GameView {
        is_over: true,
        scores: Some(round_points(v.tricks[0] + v.tricks[2], v.calling.unwrap() % 2 == 0)),
        ..v
    }
}

/// Taking a Play action: the card is played; a fourth card closes the
/// trick, and an empty winner's hand closes the round.
pub open spec fn play_view(v: GameView, a: Action) -> GameView {
    let c = spec_action_card(a).unwrap();
    let played = play_card_view(v, c);
    if center_len(played) == 4 {
        let ended = end_trick_view(played);
        if ended.hands[ended.curr as int].len() == 0 {
            finish_round_view(ended)
        } else {
            ended
        }
    } else {
        played
    }
}

/// One transition of the machine, dispatched over the action's identifier
/// range exactly as `step` does it.
pub open spec fn step_view(v: GameView, a: Action) -> GameView {
    if a == Action::Pick {
        pick_view(v)
    } else if a == Action::Pass {
        pass_view(v)
    } else if spec_id(a) < 6 {
        call_view(v, a)
    } else if spec_id(a) > 29 {
        discard_view(v, a)
    } else {
        play_view(v, a)
    }
}

/// The dealer seat a construction uses: the override when one is given,
/// else the seat the seeded generator draws.
pub open spec fn chosen_dealer(dealer_id: Option<u8>, seed: u64) -> u8 {
    match dealer_id {
        Some(d) => d,
        None => utils::drawn_seat(seed),
    }
}

/// The deck a construction deals from: the full deck shuffled by the
/// seeded generator, after a seat draw exactly when no override was given.
pub open spec fn shuffled_deck_for(dealer_id: Option<u8>, seed: u64) -> Seq<Card> {
    match dealer_id {
        Some(_) => utils::shuffled(seed, full_deck()),
        None => utils::shuffled_after_draw(seed, full_deck()),
    }
}

/// The state a fresh game holds: five cards to each seat dealt from the
/// deck's tail starting at seat 0, the next card flipped, and the seat
/// left of the dealer to act first in bidding.
pub open spec fn init_view(dealer_id: Option<u8>, seed: u64) -> GameView {
    let deck = shuffled_deck_for(dealer_id, seed);
    let deal = chosen_dealer(dealer_id, seed);
    let first = next_seat(deal);
    GameView {
        is_over: false,
        scores: None,
        hands: Seq::new(4, |i: int| deck.subrange(19 - 5 * i, 24 - 5 * i)),
        tricks: Seq::new(4, |i: int| 0u8),
        curr: first,
        dealer: deal,
        flipped_card: deck[3],
        flipped_choice: None,
        calling: None,
        prev_played: Seq::new(4, |i: int| Seq::<Card>::empty()),
        center: None,
        order: order_from(first),
        trump: None,
        led_suit: None,
    }
}


/// The total number of cards still held across the four hands.
pub open spec fn sum_hands(v: GameView) -> int {
    (v.hands[0].len() + v.hands[1].len() + v.hands[2].len() + v.hands[3].len()) as int
}

/// A measure that strictly shrinks with every legal step, so that a loop
/// driving a game to its end terminates: bidding counts seats left before
/// the dealer closes it, and trick play counts the cards still in hands.
pub open spec fn game_measure(v: GameView) -> int {
    match phase_of(v) {
        GamePhase::Over => 0,
        GamePhase::Discarding => 23,
        GamePhase::ChoosingTrumpFlipAvailable => 30 + ((v.dealer - v.curr + 4) % 4),
        GamePhase::ChoosingTrumpFlipTurnedDown => 25 + ((v.dealer - v.curr + 4) % 4),
        GamePhase::Leading => 2 + sum_hands(v),
        GamePhase::Following => 2 + sum_hands(v),
    }
}

/// The full game, replayed as a pure function: the state after feeding
/// `acts` one by one into `start`.
pub open spec fn replay_from(start: GameView, acts: Seq<Action>) -> GameView
    decreases acts.len(),
{
    if acts.len() == 0 {
        start
    } else {
        step_view(replay_from(start, acts.drop_last()), acts.last())
    }
}


/// The authoritative game state. All mutation goes through `step`; agents
/// only ever see the scoped projection.
pub struct EuchreGame {
    is_over: bool,
    scores: Option<Vec<u8>>,
    players: Vec<Player>,
    curr_player_id: u8,
    dealer_id: u8,
    judger: Judger,
    flipped_card: Card,
    flipped_choice: Option<FlippedChoice>,
    calling_player_id: Option<u8>,
    previous_played: Vec<Vec<Card>>,
    center: Option<Vec<Card>>,
    order: Vec<u8>,
    trump: Option<Suit>,
    led_suit: Option<Suit>,
}

impl View for EuchreGame {
    type V = GameView;

    closed spec fn view(&self) -> GameView {
        GameView {
            is_over: self.is_over,
            scores: match self.scores {
                Some(s) => Some(s@),
                None => None,
            },
            hands: Seq::new(4, |i: int| self.players@[i].hand@),
            tricks: Seq::new(4, |i: int| self.players@[i].tricks),
            curr: self.curr_player_id,
            dealer: self.dealer_id,
            flipped_card: self.flipped_card,
            flipped_choice: self.flipped_choice,
            calling: self.calling_player_id,
            prev_played: Seq::new(4, |i: int| self.previous_played@[i]@),
            center: match self.center {
                Some(c) => Some(c@),
                None => None,
            },
            order: self.order@,
            trump: self.trump,
            led_suit: self.led_suit,
        }
    }
}

/// A copy of a card vector.
fn clone_cards(v: &Vec<Card>) -> (r: Vec<Card>)
    ensures
        r@ == v@,
{
    let mut copy: Vec<Card> = Vec::new();
    let n: usize = v.len();
    let mut i: usize = 0;
    while i < n
        invariant
            n == v@.len(),
            i <= n,
            copy@ == v@.take(i as int),
        decreases n - i,
    {
        copy.push(v[i]);
        proof {
            assert(copy@ =~= v@.take(i + 1 as int));
        }
        i += 1;
    }
    proof {
        assert(copy@ =~= v@);
    }
    copy
}

/// A copy of a byte vector.
fn clone_u8s(v: &Vec<u8>) -> (r: Vec<u8>)
    ensures
        r@ == v@,
{
    let mut copy: Vec<u8> = Vec::new();
    let n: usize = v.len();
    let mut i: usize = 0;
    while i < n
        invariant
            n == v@.len(),
            i <= n,
            copy@ == v@.take(i as int),
        decreases n - i,
    {
        copy.push(v[i]);
        proof {
            assert(copy@ =~= v@.take(i + 1 as int));
        }
        i += 1;
    }
    proof {
        assert(copy@ =~= v@);
    }
    copy
}

/// Either the validated override, or the seat the seeded generator draws.
pub fn determine_dealer(deal_id: Option<u8>, seed: u64) -> (d: u8)
    requires
        deal_id matches Some(x) ==> x < 4,
    ensures
        d == chosen_dealer(deal_id, seed),
        d < 4,
{
    match deal_id {
        Some(num) => num,
        None => utils::draw_dealer_seat(seed),
    }
}

impl EuchreGame {
    /// A well-formed game: four players seated in order, in a reachable
    /// state.
    pub closed spec fn wf(self) -> bool {
        &&& self.players_seated()
        &&& wf_view(self@)
    }

    /// The seats in play order starting from `player`.
    fn order_starting_from(player: u8) -> (o: Vec<u8>)
        requires
            player < 4,
        ensures
            o@ == order_from(player),
    {
        let o: Vec<u8> = vec![player, (player + 1) % 4, (player + 2) % 4, (player + 3) % 4];
        proof {
            assert(o@ =~= order_from(player));
        }
        o
    }

    /// Sets up a new game: the dealer seat is the validated override or a
    /// seeded draw, hands are dealt from the seeded shuffle, the kitty is
    /// flipped, and the seat left of the dealer opens the bidding.
    pub fn new(dealer_id: Option<u8>, seed: Option<u64>) -> (game: EuchreGame)
        requires
            dealer_id matches Some(d) ==> d < 4,
        ensures
            game.wf(),
            match seed {
                Some(s) => game@ == init_view(dealer_id, s),
                None => exists|s: u64| game@ == init_view(dealer_id, s),
            },
    {
        let seed_val: u64 = match seed {
            Some(s) => s,
            None => utils::entropy_seed(),
        };
        let deal_id: u8 = determine_dealer(dealer_id, seed_val);
        let mut dealer: Dealer = match dealer_id {
            Some(_) => Dealer::new(seed_val, false),
            None => Dealer::new(seed_val, true),
        };
        dealer.shuffle();
        let ghost deck: Seq<Card> = shuffled_deck_for(dealer_id, seed_val);
        proof {
            assert(dealer.euchre_deck@ == deck);
            full_deck_is_concrete();
            concrete_preserved_by_multiset_eq(full_deck(), deck);
        }
        let curr_p_id: u8 = (deal_id + 1) % 4;

        let mut p0 = Player::new(0);
        let mut p1 = Player::new(1);
        let mut p2 = Player::new(2);
        let mut p3 = Player::new(3);
        dealer.deal_cards(&mut p0);
        dealer.deal_cards(&mut p1);
        dealer.deal_cards(&mut p2);
        dealer.deal_cards(&mut p3);
        proof {
            assert(p0.hand@ =~= deck.subrange(19, 24));
            assert(p1.hand@ =~= deck.subrange(14, 19));
            assert(p2.hand@ =~= deck.subrange(9, 14));
            assert(p3.hand@ =~= deck.subrange(4, 9));
            assert(dealer.euchre_deck@.len() == 4);
        }
        let flipped: Card = dealer.flip_top_card();
        let mut players: Vec<Player> = Vec::new();
        players.push(p0);
        players.push(p1);
        players.push(p2);
        players.push(p3);

        let mut previous_played: Vec<Vec<Card>> = Vec::new();
        previous_played.push(Vec::new());
        previous_played.push(Vec::new());
        previous_played.push(Vec::new());
        previous_played.push(Vec::new());

        let game = EuchreGame {
            is_over: false,
            scores: None,
            players,
            curr_player_id: curr_p_id,
            dealer_id: deal_id,
            judger: Judger::new(),
            flipped_card: flipped,
            flipped_choice: None,
            calling_player_id: None,
            previous_played,
            center: None,
            order: Self::order_starting_from(curr_p_id),
            trump: None,
            led_suit: None,
        };
        proof {
            let iv = init_view(dealer_id, seed_val);
            assert(game@.hands =~= iv.hands) by {
                assert forall|i: int| 0 <= i < 4 implies game@.hands[i] == iv.hands[i] by {
                    assert(iv.hands[i] == deck.subrange(19 - 5 * i, 24 - 5 * i));
                }
            }
            assert(game@.tricks =~= iv.tricks);
            assert(game@.prev_played =~= iv.prev_played) by {
                assert forall|i: int| 0 <= i < 4 implies game@.prev_played[i]
                    == Seq::<Card>::empty() by {}
            }
            assert(game@ == iv);
            assert(wf_view(game@)) by {
                assert forall|i: int| 0 <= i < 4 implies concrete_cards(#[trigger] game@.hands[i])
                    && game@.hands[i].len() == 5 by {
                    assert(game@.hands[i] == deck.subrange(19 - 5 * i, 24 - 5 * i));
                    assert forall|j: int| 0 <= j < 5 implies concrete_card(
                        #[trigger] game@.hands[i][j],
                    ) by {
                        assert(game@.hands[i][j] == deck[19 - 5 * i + j]);
                    }
                }
                assert(concrete_card(game@.flipped_card)) by {
                    assert(game@.flipped_card == deck[3]);
                }
                assert forall|i: int| 0 <= i < 4 implies concrete_cards(
                    #[trigger] game@.prev_played[i],
                ) by {}
            }
        }
        game
    }

    /// Whether the round is over and scored.
    pub fn is_over(&self) -> (b: bool)
        ensures
            b == self@.is_over,
    {
        self.is_over
    }

    /// The id of the seat whose turn it is.
    pub fn get_curr_player_id(&self) -> (id: u8)
        ensures
            id == self@.curr,
    {
        self.curr_player_id
    }

    /// The per-seat point award, present once the game is over; asking
    /// earlier yields nothing rather than a value.
    pub fn get_rewards(&self) -> (r: Option<Vec<u8>>)
        requires
            self.wf(),
        ensures
            match r {
                Some(s) => self@.is_over && self@.scores == Some(s@),
                None => !self@.is_over,
            },
    {
        if self.is_over {
            match &self.scores {
                Some(s) => Some(clone_u8s(s)),
                None => None,
            }
        } else {
            None
        }
    }

    /// The four seats' trick counts, by seat.
    fn get_player_tricks(&self) -> (t: Vec<u8>)
        requires
            self.wf(),
        ensures
            t@ == self@.tricks,
    {
        let mut tricks: Vec<u8> = Vec::new();
        tricks.push(self.players[0].get_tricks());
        tricks.push(self.players[1].get_tricks());
        tricks.push(self.players[2].get_tricks());
        tricks.push(self.players[3].get_tricks());
        proof {
            assert(tricks@ =~= self@.tricks);
        }
        tricks
    }
}

/// Every card of the full deck is concrete.
pub proof fn full_deck_is_concrete()
    ensures
        concrete_cards(full_deck()),
        full_deck().len() == 24,
{
    assert forall|i: int| 0 <= i < full_deck().len() implies concrete_card(
        #[trigger] full_deck()[i],
    ) by {
        assert(0 <= i / 6 < 4 && 0 <= i % 6 < 6);
    }
}

/// A sequence holding the same cards as a concrete one is concrete.
pub proof fn concrete_preserved_by_multiset_eq(s1: Seq<Card>, s2: Seq<Card>)
    requires
        concrete_cards(s1),
        s1.to_multiset() == s2.to_multiset(),
    ensures
        concrete_cards(s2),
{
    broadcast use vstd::seq_lib::group_to_multiset_ensures;

    assert forall|i: int| 0 <= i < s2.len() implies concrete_card(#[trigger] s2[i]) by {
        assert(s2.to_multiset().contains(s2[i]));
        assert(s1.to_multiset().contains(s2[i]));
        assert(s1.contains(s2[i]));
    }
}


impl EuchreGame {
    /// Four players sit at their own seats.
    closed spec fn players_seated(self) -> bool {
        &&& self.players@.len() == 4
        &&& (forall|i: int| 0 <= i < 4 ==> #[trigger] self.players@[i].player_id == i)
        &&& self.previous_played@.len() == 4
    }

    /// The seat whose turn comes after the current one.
    fn see_next_player(&self) -> (p: u8)
        requires
            self@.curr < 4,
        ensures
            p == next_seat(self@.curr),
    {
        (self.curr_player_id + 1) % 4
    }

    /// Moves the turn to the seat left of the current player.
    fn increment_player(&mut self)
        requires
            old(self)@.curr < 4,
        ensures
            final(self)@ == (GameView { curr: next_seat(old(self)@.curr), ..old(self)@ }),
            final(self).players_seated() == old(self).players_seated(),
    {
        self.curr_player_id = self.see_next_player();
        proof {
            assert(self@.hands =~= old(self)@.hands);
            assert(self@.tricks =~= old(self)@.tricks);
            assert(self@.prev_played =~= old(self)@.prev_played);
        }
    }

    /// Taking the Pick action: the dealer's hand gains the flipped card,
    /// its suit becomes trump, the picker is recorded as the caller, and
    /// the dealer must now discard.
    fn perform_pick_action(&mut self)
        requires
            old(self).players_seated(),
            old(self)@.dealer < 4,
        ensures
            final(self)@ == pick_view(old(self)@),
            final(self).players_seated(),
    {
        let flipped: Card = self.flipped_card;
        let di: usize = self.dealer_id as usize;
        let mut dealer_player: Player = self.players.remove(di);
        dealer_player.push_card(flipped);
        self.players.insert(di, dealer_player);
        proof {
            assert(self.players@ =~= old(self).players@.update(
                di as int,
                self.players@[di as int],
            ));
        }
        self.trump = Some(self.flipped_card.suit());
        self.flipped_choice = Some(FlippedChoice::PickedUp);
        self.calling_player_id = Some(self.curr_player_id);
        self.curr_player_id = self.dealer_id;
        proof {
            assert(self@.hands =~= pick_view(old(self)@).hands);
            assert(self@.tricks =~= pick_view(old(self)@).tricks);
            assert(self@.prev_played =~= pick_view(old(self)@).prev_played);
        }
    }

    /// Taking the Pass action: the dealer passing turns the flipped card
    /// down; the turn moves left either way.
    fn perform_pass_action(&mut self)
        requires
            old(self)@.curr < 4,
        ensures
            final(self)@ == pass_view(old(self)@),
            final(self).players_seated() == old(self).players_seated(),
    {
        if self.curr_player_id == self.dealer_id {
            self.flipped_choice = Some(FlippedChoice::TurnedDown);
        }
        self.increment_player();
        proof {
            assert(self@.hands =~= pass_view(old(self)@).hands);
            assert(self@.tricks =~= pass_view(old(self)@).tricks);
            assert(self@.prev_played =~= pass_view(old(self)@).prev_played);
        }
    }

    /// Taking a Call action: the named suit becomes trump, the caller is
    /// recorded, and the seat left of the dealer will lead the first trick.
    fn perform_call_action(&mut self, action: Action)
        requires
            old(self)@.dealer < 4,
            action == Action::CallH || action == Action::CallD || action == Action::CallS
                || action == Action::CallC,
        ensures
            final(self)@ == call_view(old(self)@, action),
            final(self).players_seated() == old(self).players_seated(),
    {
        let trump: Suit = match action {
            Action::CallH => Suit::Hearts,
            Action::CallC => Suit::Clubs,
            Action::CallD => Suit::Diamonds,
            Action::CallS => Suit::Spades,
            _ => Suit::Unset,
        };
        self.trump = Some(trump);
        self.calling_player_id = Some(self.curr_player_id);
        self.curr_player_id = (self.dealer_id + 1) % 4;
        proof {
            assert(self@.hands =~= call_view(old(self)@, action).hands);
            assert(self@.tricks =~= call_view(old(self)@, action).tricks);
            assert(self@.prev_played =~= call_view(old(self)@, action).prev_played);
        }
    }

    /// Taking a Discard action: the named card leaves the current (dealer)
    /// hand and the seat left of the dealer leads the first trick.
    fn perform_discard_action(&mut self, action: Action)
        requires
            old(self).players_seated(),
            old(self)@.curr < 4,
            spec_action_card(action) is Some,
        ensures
            final(self)@ == discard_view(old(self)@, action),
            final(self).players_seated(),
    {
        let card_to_drop: Card = match Action::action_to_card(action) {
            Ok(c) => c,
            Err(_) => {
                proof {
                    assert(false);
                }
                Card::new(Suit::Unset, crate::card::Rank::Unset)
            },
        };
        let ci: usize = self.curr_player_id as usize;
        let mut player: Player = self.players.remove(ci);
        player.remove_card(card_to_drop);
        self.players.insert(ci, player);
        proof {
            assert(self.players@ =~= old(self).players@.update(
                ci as int,
                self.players@[ci as int],
            ));
        }
        self.increment_player();
        proof {
            assert(self@.hands =~= discard_view(old(self)@, action).hands);
            assert(self@.tricks =~= discard_view(old(self)@, action).tricks);
            assert(self@.prev_played =~= discard_view(old(self)@, action).prev_played);
        }
    }

    /// Taking a Play action: the named card moves from the current hand to
    /// the center and the seat's play history; the first card of a trick
    /// fixes the led suit to its effective suit.
    fn perform_play_card(&mut self, action: Action)
        requires
            old(self).players_seated(),
            old(self)@.curr < 4,
            spec_action_card(action) is Some,
            old(self)@.trump matches Some(t) && concrete_suit(t),
        ensures
            final(self)@ == play_card_view(old(self)@, spec_action_card(action).unwrap()),
            final(self).players_seated(),
    {
        let card_to_play: Card = match Action::action_to_card(action) {
            Ok(c) => c,
            Err(_) => {
                proof {
                    assert(false);
                }
                Card::new(Suit::Unset, crate::card::Rank::Unset)
            },
        };
        let ci: usize = self.curr_player_id as usize;
        let mut player: Player = self.players.remove(ci);
        player.remove_card(card_to_play);
        self.players.insert(ci, player);
        proof {
            assert(self.players@ =~= old(self).players@.update(
                ci as int,
                self.players@[ci as int],
            ));
        }

        if self.center.is_none() {
            self.center = Some(Vec::new());
            let trump: Suit = self.trump.unwrap();
            self.led_suit = if card_to_play.is_left(trump) {
                Some(trump)
            } else {
                Some(card_to_play.suit())
            };
        }
        let mut center_cards: Vec<Card> = match self.center.take() {
            Some(c) => c,
            None => {
                proof {
                    assert(false);
                }
                Vec::new()
            },
        };
        center_cards.push(card_to_play);
        self.center = Some(center_cards);

        let mut seat_history: Vec<Card> = self.previous_played.remove(ci);
        seat_history.push(card_to_play);
        self.previous_played.insert(ci, seat_history);
        proof {
            assert(self.previous_played@ =~= old(self).previous_played@.update(
                ci as int,
                self.previous_played@[ci as int],
            ));
        }

        self.increment_player();
        proof {
            let target = play_card_view(old(self)@, spec_action_card(action).unwrap());
            assert(self@.hands =~= target.hands);
            assert(self@.tricks =~= target.tricks);
            assert(self@.prev_played =~= target.prev_played);
            assert(self@.center.unwrap() =~= target.center.unwrap());
        }
    }

    /// Closing a full trick: the judged winner is awarded it, becomes the
    /// current player and next leader, and the center and led suit reset.
    fn end_trick(&mut self)
        requires
            old(self).players_seated(),
            old(self)@.center matches Some(c) && c.len() == 4,
            old(self)@.trump matches Some(t) && concrete_suit(t),
            old(self)@.order.len() == 4,
            forall|i: int| 0 <= i < 4 ==> #[trigger] old(self)@.order[i] < 4,
            forall|i: int| 0 <= i < 4 ==> #[trigger] old(self)@.tricks[i] < 255,
        ensures
            final(self)@ == end_trick_view(old(self)@),
            final(self).players_seated(),
    {
        let trump: Suit = self.trump.unwrap();
        let center_cards: Vec<Card> = match self.center.take() {
            Some(c) => c,
            None => {
                proof {
                    assert(false);
                }
                Vec::new()
            },
        };
        proof {
            crate::judger::lemma_winner_upto_bounds(trump, center_cards@, 3);
        }
        let winner_id: u8 = self.judger.judge_trick(trump, &center_cards, &self.order);
        let wi: usize = winner_id as usize;
        let mut winner: Player = self.players.remove(wi);
        winner.award_trick();
        self.players.insert(wi, winner);
        proof {
            assert(self.players@ =~= old(self).players@.update(
                wi as int,
                self.players@[wi as int],
            ));
        }
        self.curr_player_id = winner_id;
        self.order = Self::order_starting_from(winner_id);
        self.led_suit = None;
        proof {
            assert(self@.hands =~= end_trick_view(old(self)@).hands);
            assert(self@.tricks =~= end_trick_view(old(self)@).tricks);
            assert(self@.prev_played =~= end_trick_view(old(self)@).prev_played);
        }
    }

    /// Ending the round once the trick winner's hand is empty: the score
    /// vector is computed from the trick counts and the calling team.
    fn decide_is_over(&mut self)
        requires
            old(self).players_seated(),
            old(self)@.curr < 4,
            old(self)@.calling is Some,
            old(self)@.hands[old(self)@.curr as int].len() == 0 ==> tricks_total(old(self)@)
                == 5,
        ensures
            final(self)@ == if old(self)@.hands[old(self)@.curr as int].len() == 0 {
                finish_round_view(old(self)@)
            } else {
                old(self)@
            },
            final(self).players_seated(),
    {
        let ci: usize = self.curr_player_id as usize;
        if self.players[ci].hand_ref().len() == 0 {
            self.is_over = true;
            let tricks: Vec<u8> = vec![
                self.players[0].get_tricks(),
                self.players[1].get_tricks(),
                self.players[2].get_tricks(),
                self.players[3].get_tricks(),
            ];
            proof {
                assert(tricks@ =~= self@.tricks);
            }
            let calling: u8 = self.calling_player_id.unwrap();
            let scores: Vec<u8> = self.judger.judge_round(tricks, calling);
            self.scores = Some(scores);
            proof {
                assert(self@.hands =~= finish_round_view(old(self)@).hands);
                assert(self@.tricks =~= finish_round_view(old(self)@).tricks);
                assert(self@.prev_played =~= finish_round_view(old(self)@).prev_played);
            }
        } else {
            proof {
                assert(self@.hands =~= old(self)@.hands);
                assert(self@.tricks =~= old(self)@.tricks);
                assert(self@.prev_played =~= old(self)@.prev_played);
            }
        }
    }
}


impl EuchreGame {
    /// The Play or Discard actions of the cards of `hand`, in hand order.
    fn actions_of_hand(hand: &Vec<Card>, is_play: bool) -> (actions: Vec<Action>)
        requires
            concrete_cards(hand@),
        ensures
            actions@ == if is_play {
                hand_play_actions(hand@)
            } else {
                hand_discard_actions(hand@)
            },
    {
        let ghost target: Seq<Action> = if is_play {
            hand_play_actions(hand@)
        } else {
            hand_discard_actions(hand@)
        };
        let mut actions: Vec<Action> = Vec::new();
        let n: usize = hand.len();
        let mut i: usize = 0;
        while i < n
            invariant
                n == hand@.len(),
                i <= n,
                concrete_cards(hand@),
                target == if is_play {
                    hand_play_actions(hand@)
                } else {
                    hand_discard_actions(hand@)
                },
                actions@ == target.take(i as int),
            decreases n - i,
        {
            let card = hand[i];
            actions.push(Action::card_to_action(&card, is_play));
            proof {
                assert(actions@ =~= target.take(i + 1 as int));
            }
            i += 1;
        }
        proof {
            assert(actions@ =~= target);
        }
        actions
    }

    /// The cards of `hand` whose effective suit under `trump` is `led`.
    fn cards_following(hand: &Vec<Card>, trump: Suit, led: Suit) -> (followers: Vec<Card>)
        requires
            concrete_suit(trump),
        ensures
            followers@ == follow_cards(hand@, trump, led),
    {
        let mut followers: Vec<Card> = Vec::new();
        let n: usize = hand.len();
        let mut i: usize = 0;
        while i < n
            invariant
                n == hand@.len(),
                i <= n,
                concrete_suit(trump),
                followers@ == follow_cards(hand@.take(i as int), trump, led),
            decreases n - i,
        {
            let card = hand[i];
            proof {
                reveal(Seq::filter);
                assert(hand@.take(i + 1 as int).drop_last() =~= hand@.take(i as int));
                assert(hand@.take(i + 1 as int).last() == hand@[i as int]);
            }
            if card.eff_suit(trump) == led {
                followers.push(card);
            }
            i += 1;
        }
        proof {
            assert(hand@.take(n as int) =~= hand@);
        }
        followers
    }

    /// All actions the current player may take in the present phase,
    /// computed fresh on every request.
    /// The phase the game is in, read off the authoritative fields.
    pub fn phase(&self) -> (p: GamePhase)
        requires
            self.wf(),
        ensures
            p == phase_of(self@),
    {
        if self.is_over {
            GamePhase::Over
        } else if self.trump.is_none() {
            if self.flipped_choice.is_none() {
                GamePhase::ChoosingTrumpFlipAvailable
            } else {
                GamePhase::ChoosingTrumpFlipTurnedDown
            }
        } else {
            let ci: usize = self.curr_player_id as usize;
            if self.players[ci].hand.len() == 6 {
                GamePhase::Discarding
            } else if self.led_suit.is_none() {
                GamePhase::Leading
            } else {
                GamePhase::Following
            }
        }
    }

    /// All actions the current player may take, computed fresh on every
    /// request by one dispatch over the explicit phase tag.
    pub fn get_legal_actions(&self) -> (actions: Vec<Action>)
        requires
            self.wf(),
        ensures
            actions@ == legal_actions_of(self@),
    {
        let ci: usize = self.curr_player_id as usize;
        match self.phase() {
            GamePhase::Over => {
                let actions: Vec<Action> = Vec::new();
                proof {
                    assert(actions@ =~= legal_actions_of(self@));
                }
                actions
            },
            GamePhase::Discarding => {
                // the dealer picked up the flip and must shed a card
                let hand: Vec<Card> = self.players[ci].hand_ref();
                proof {
                    assert(hand@ == self@.hands[self@.curr as int]);
                    assert(concrete_cards(hand@));
                }
                Self::actions_of_hand(&hand, false)
            },
            GamePhase::ChoosingTrumpFlipAvailable => {
                let actions: Vec<Action> = vec![Action::Pick, Action::Pass];
                proof {
                    assert(actions@ =~= seq![Action::Pick, Action::Pass]);
                }
                actions
            },
            GamePhase::ChoosingTrumpFlipTurnedDown => {
                // the flip was turned down; its suit cannot be called, and
                // the dealer may not pass
                let turned_down: Suit = self.flipped_card.suit();
                let mut actions: Vec<Action> = Vec::new();
                if !matches!(turned_down, Suit::Hearts) {
                    actions.push(Action::CallH);
                }
                if !matches!(turned_down, Suit::Diamonds) {
                    actions.push(Action::CallD);
                }
                if !matches!(turned_down, Suit::Spades) {
                    actions.push(Action::CallS);
                }
                if !matches!(turned_down, Suit::Clubs) {
                    actions.push(Action::CallC);
                }
                proof {
                    assert(actions@ =~= call_actions(turned_down));
                }
                if self.get_curr_player_id() != self.dealer_id {
                    actions.push(Action::Pass);
                }
                proof {
                    assert(actions@ =~= legal_actions_of(self@));
                }
                actions
            },
            GamePhase::Leading => {
                // any card may open the trick
                let hand: Vec<Card> = self.players[ci].hand_ref();
                proof {
                    assert(hand@ == self@.hands[self@.curr as int]);
                    assert(concrete_cards(hand@));
                }
                Self::actions_of_hand(&hand, true)
            },
            GamePhase::Following => {
                // follow the led effective suit when the hand is able to
                let hand: Vec<Card> = self.players[ci].hand_ref();
                proof {
                    assert(hand@ == self@.hands[self@.curr as int]);
                    assert(concrete_cards(hand@));
                }
                let trump: Suit = self.trump.unwrap();
                let led: Suit = self.led_suit.unwrap();
                let followers: Vec<Card> = Self::cards_following(&hand, trump, led);
                if followers.len() > 0 {
                    proof {
                        lemma_filter_keeps_elements(
                            hand@,
                            |c: Card| c.effective_suit(trump) == led,
                        );
                    }
                    Self::actions_of_hand(&followers, true)
                } else {
                    Self::actions_of_hand(&hand, true)
                }
            },
        }
    }

    /// The current game state as the current player sees it.
    pub fn get_state(&self) -> (s: ScopedGameState)
        requires
            self.wf(),
        ensures
            scoped_matches(s, self@),
    {
        let ci: usize = self.curr_player_id as usize;
        let legals: Vec<Action> = self.get_legal_actions();
        let center: Option<Vec<Card>> = match &self.center {
            Some(c) => Some(clone_cards(c)),
            None => None,
        };
        let mut previous_played: Vec<Vec<Card>> = Vec::new();
        previous_played.push(clone_cards(&self.previous_played[0]));
        previous_played.push(clone_cards(&self.previous_played[1]));
        previous_played.push(clone_cards(&self.previous_played[2]));
        previous_played.push(clone_cards(&self.previous_played[3]));
        ScopedGameState {
            current_actor: self.curr_player_id,
            hand: self.players[ci].hand_ref(),
            calling_actor: self.calling_player_id,
            dealer_actor: self.dealer_id,
            flipped_card: self.flipped_card,
            flipped_choice: self.flipped_choice,
            trump: self.trump,
            led_suit: self.led_suit,
            order: clone_u8s(&self.order),
            center,
            previous_played,
            legal_actions: legals,
        }
    }
}

/// The scoped state `s` is the projection of the game state `v` for its
/// current player: the actor's own hand, all public information, and the
/// legal actions of the moment.
pub open spec fn scoped_matches(s: ScopedGameState, v: GameView) -> bool {
    &&& s.dealer_actor == v.dealer
    &&& s.current_actor == v.curr
    &&& s.hand@ == v.hands[v.curr as int]
    &&& s.calling_actor == v.calling
    &&& s.flipped_choice == v.flipped_choice
    &&& s.flipped_card == v.flipped_card
    &&& s.trump == v.trump
    &&& s.led_suit == v.led_suit
    &&& s.order@ == v.order
    &&& (match s.center {
        Some(c) => v.center == Some(c@),
        None => v.center is None,
    })
    &&& s.previous_played@.len() == 4
    &&& (forall|i: int| 0 <= i < 4 ==> #[trigger] s.previous_played@[i]@ == v.prev_played[i])
    &&& s.legal_actions@ == legal_actions_of(v)
}

/// Every element that a filter keeps was in the sequence it filtered.
pub proof fn lemma_filter_keeps_elements<A>(s: Seq<A>, pred: spec_fn(A) -> bool)
    ensures
        forall|i: int|
            0 <= i < s.filter(pred).len() ==> s.contains(#[trigger] s.filter(pred)[i]),
    decreases s.len(),
{
    reveal(Seq::filter);
    if s.len() > 0 {
        lemma_filter_keeps_elements(s.drop_last(), pred);
        assert forall|i: int|
            0 <= i < s.filter(pred).len() implies s.contains(#[trigger] s.filter(pred)[i]) by {
            if i < s.drop_last().filter(pred).len() {
                assert(s.drop_last().contains(s.drop_last().filter(pred)[i]));
                let j = choose|j: int|
                    0 <= j < s.drop_last().len() && s.drop_last()[j] == s.drop_last().filter(
                        pred,
                    )[i];
                assert(s[j] == s.filter(pred)[i]);
            } else {
                assert(s.filter(pred)[i] == s.last());
            }
        }
    }
}


impl EuchreGame {
    /// Updates the game by the given action, which must be drawn from the
    /// current legal-action list, and returns the fresh scoped state along
    /// with the id of the player now to act. The state after the call is
    /// exactly `step_view` of the state before it.
    pub fn step(&mut self, action: Action) -> (r: (ScopedGameState, u8))
        requires
            old(self).wf(),
            !old(self)@.is_over,
            legal_actions_of(old(self)@).contains(action),
        ensures
            final(self).wf(),
            final(self)@ == step_view(old(self)@, action),
            scoped_matches(r.0, final(self)@),
            r.1 == final(self)@.curr,
    {
        proof {
            crate::game::laws::lemma_legal_action_shape(old(self)@, action);
            crate::game::laws::lemma_step_preserves_wf(old(self)@, action);
        }
        if matches!(action, Action::Pick) {
            self.perform_pick_action();
        } else if matches!(action, Action::Pass) {
            self.perform_pass_action();
        } else {
            let num: u8 = action.id();
            if num < 6 {
                self.perform_call_action(action);
            } else if num > 29 {
                self.perform_discard_action(action);
            } else {
                proof {
                    crate::game::laws::lemma_play_preserves_wf(old(self)@, action);
                }
                self.perform_play_card(action);
                let full: bool = match &self.center {
                    Some(cc) => cc.len() == 4,
                    None => false,
                };
                if full {
                    proof {
                        assert forall|i: int| 0 <= i < 4 implies #[trigger] self@.order[i]
                            < 4 by {
                            assert(self@.order[i] == ((self@.order[0] + i) % 4) as u8);
                        }
                        assert forall|i: int| 0 <= i < 4 implies #[trigger] self@.tricks[i]
                            < 255 by {
                            assert(tricks_total(old(self)@) <= 4);
                            assert(self@.tricks == old(self)@.tricks);
                            assert(forall|j: int| 0 <= j < 4 ==> old(self)@.tricks[j] >= 0);
                        }
                    }
                    self.end_trick();
                    self.decide_is_over();
                }
            }
        }
        let curr_id: u8 = self.get_curr_player_id();
        let state: ScopedGameState = self.get_state();
        (state, curr_id)
    }
}


/// A well-formed game's view satisfies the spec-level invariant; this is
/// how callers outside this module reach the laws' preconditions.
pub proof fn lemma_wf_view(g: EuchreGame)
    requires
        g.wf(),
    ensures
        wf_view(g@),
{
}

} // verus!
