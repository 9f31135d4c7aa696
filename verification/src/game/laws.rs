//! The laws of the state machine, proved over the spec-level model: what a
//! legal action can be in each phase, that every reachable state stays
//! well-formed, that the legal-action list of a live state is never empty,
//! the follow-suit rule, trick-count conservation, and determinism.

use vstd::prelude::*;

use crate::action::{lemma_action_card_round_trip, spec_action_card, spec_id, Action};
use crate::card::{concrete_card, concrete_suit, Card};
use crate::game::{
    call_actions, call_suit, call_view, center_len, concrete_cards, discard_view, end_trick_view,
    finish_round_view, follow_cards, game_measure, hand_discard_actions, hand_play_actions,
    legal_actions_of, lemma_filter_keeps_elements, pass_view, phase_of, pick_view, play_card_view,
    play_view, remove_first, replay_from, seat_pos, step_view, sum_hands, tricks_total, wf_base,
    wf_phase, wf_view, GamePhase, GameView,
};
use crate::judger::{lemma_winner_upto_bounds, round_points, spec_judge_trick, winner_upto};

verus! {

/// Removing the first copy of a card keeps a concrete hand concrete and
/// shortens it by one exactly when the card was there.
pub proof fn lemma_remove_first_props(s: Seq<Card>, c: Card)
    requires
        concrete_cards(s),
    ensures
        concrete_cards(remove_first(s, c)),
        s.contains(c) ==> remove_first(s, c).len() == s.len() - 1,
        !s.contains(c) ==> remove_first(s, c) == s,
{
    s.index_of_first_ensures(c);
    if s.contains(c) {
        let i: int = s.index_of_first(c).unwrap();
        let r = s.remove(i);
        assert forall|j: int| 0 <= j < r.len() implies concrete_card(#[trigger] r[j]) by {
            if j < i {
                assert(r[j] == s[j]);
            } else {
                assert(r[j] == s[j + 1]);
            }
        }
    }
}

/// The play order is a rotation: each seat appears exactly once, at the
/// position `seat_pos` names.
pub proof fn lemma_seat_positions(v: GameView)
    requires
        wf_base(v),
    ensures
        forall|j: int| 0 <= j < 4 ==> 0 <= #[trigger] v.order[j] < 4,
        forall|j: int| 0 <= j < 4 ==> seat_pos(v, #[trigger] v.order[j] as int) == j,
        forall|s: int| 0 <= s < 4 ==> 0 <= #[trigger] seat_pos(v, s) < 4,
        forall|s: int| 0 <= s < 4 ==> v.order[#[trigger] seat_pos(v, s)] == s,
{
    assert forall|j: int| 0 <= j < 4 implies 0 <= #[trigger] v.order[j] < 4 && seat_pos(
        v,
        v.order[j] as int,
    ) == j by {
        assert(v.order[j] == ((v.order[0] + j) % 4) as u8);
    }
    assert forall|s: int| 0 <= s < 4 implies 0 <= #[trigger] seat_pos(v, s) < 4 && v.order[seat_pos(
        v,
        s,
    )] == s by {
        let p = seat_pos(v, s);
        assert(v.order[p] == ((v.order[0] + p) % 4) as u8);
    }
}

/// What a legal action can be, by phase: pick or pass while the flip is
/// up; a call of a concrete suit, or pass away from the dealer's seat,
/// once it is down; and through discarding and trick play an action that
/// names a concrete card of the current hand, in the right identifier
/// range.
pub proof fn lemma_legal_action_shape(v: GameView, a: Action)
    requires
        wf_view(v),
        !v.is_over,
        legal_actions_of(v).contains(a),
    ensures
        phase_of(v) == GamePhase::ChoosingTrumpFlipAvailable ==> a == Action::Pick || a
            == Action::Pass,
        phase_of(v) == GamePhase::ChoosingTrumpFlipTurnedDown ==> ((a == Action::Pass && v.curr
            != v.dealer) || ((a == Action::CallH || a == Action::CallD || a == Action::CallS || a
            == Action::CallC) && concrete_suit(call_suit(a)))),
        phase_of(v) == GamePhase::Discarding ==> (30 <= spec_id(a) <= 53 && (spec_action_card(
            a,
        ) matches Some(c) && v.hands[v.curr as int].contains(c) && concrete_card(c))),
        phase_of(v) == GamePhase::Leading || phase_of(v) == GamePhase::Following ==> (6 <= spec_id(
            a,
        ) <= 29 && (spec_action_card(a) matches Some(c) && v.hands[v.curr as int].contains(c)
            && concrete_card(c))),
{
    let legal = legal_actions_of(v);
    let i = choose|i: int| 0 <= i < legal.len() && legal[i] == a;
    let hand = v.hands[v.curr as int];
    assert(concrete_cards(hand));
    match phase_of(v) {
        GamePhase::ChoosingTrumpFlipAvailable => {
        },
        GamePhase::ChoosingTrumpFlipTurnedDown => {
            let calls = call_actions(v.flipped_card.suit);
            if i < calls.len() {
                assert(a == calls[i]);
            } else {
                assert(v.curr != v.dealer && a == Action::Pass);
            }
        },
        GamePhase::Discarding => {
            assert(a == hand_discard_actions(hand)[i]);
            lemma_action_card_round_trip(hand[i], false);
        },
        GamePhase::Leading => {
            assert(a == hand_play_actions(hand)[i]);
            lemma_action_card_round_trip(hand[i], true);
        },
        GamePhase::Following => {
            let followers = follow_cards(hand, v.trump.unwrap(), v.led_suit.unwrap());
            lemma_filter_keeps_elements(
                hand,
                |c: Card| c.effective_suit(v.trump.unwrap()) == v.led_suit.unwrap(),
            );
            if followers.len() > 0 {
                assert(a == hand_play_actions(followers)[i]);
                let c = followers[i];
                assert(hand.contains(c));
                assert(concrete_card(c));
                lemma_action_card_round_trip(c, true);
            } else {
                assert(a == hand_play_actions(hand)[i]);
                lemma_action_card_round_trip(hand[i], true);
            }
        },
        GamePhase::Over => {
            assert(false);
        },
    }
}


/// Picking preserves well-formedness: the dealer's hand grows to six and
/// the state enters the discard phase.
proof fn lemma_pick_preserves_wf(v: GameView)
    requires
        wf_view(v),
        phase_of(v) == GamePhase::ChoosingTrumpFlipAvailable,
    ensures
        wf_view(pick_view(v)),
{
    let t = pick_view(v);
    assert forall|i: int| 0 <= i < 4 implies concrete_cards(#[trigger] t.hands[i]) by {
        assert(concrete_cards(v.hands[i]));
        if i == v.dealer {
            assert forall|j: int| 0 <= j < t.hands[i].len() implies concrete_card(
                #[trigger] t.hands[i][j],
            ) by {
                if j < v.hands[i].len() {
                    assert(t.hands[i][j] == v.hands[i][j]);
                }
            }
        }
    }
    assert(t.hands[t.dealer as int].len() == 6);
    assert forall|i: int| 0 <= i < 4 && i != t.dealer implies t.hands[i].len() == 5 by {
        assert(v.hands[i].len() == 5);
    }
    assert(wf_phase(t));
}

/// Passing preserves well-formedness: the turn moves left and the dealer's
/// pass turns the flip down.
proof fn lemma_pass_preserves_wf(v: GameView)
    requires
        wf_view(v),
        phase_of(v) == GamePhase::ChoosingTrumpFlipAvailable || phase_of(v)
            == GamePhase::ChoosingTrumpFlipTurnedDown,
    ensures
        wf_view(pass_view(v)),
{
    let t = pass_view(v);
    assert forall|i: int| 0 <= i < 4 implies v.hands[i].len() == 5 && concrete_cards(
        #[trigger] v.hands[i],
    ) by {}
    assert(wf_phase(t));
}

/// Calling a suit preserves well-formedness: trump is fixed and the seat
/// left of the dealer leads the first trick.
proof fn lemma_call_preserves_wf(v: GameView, a: Action)
    requires
        wf_view(v),
        phase_of(v) == GamePhase::ChoosingTrumpFlipTurnedDown,
        a == Action::CallH || a == Action::CallD || a == Action::CallS || a == Action::CallC,
    ensures
        wf_view(call_view(v, a)),
{
    let t = call_view(v, a);
    assert forall|i: int| 0 <= i < 4 implies v.hands[i].len() == 5 && concrete_cards(
        #[trigger] v.hands[i],
    ) && v.prev_played[i].len() == 0 && v.tricks[i] == 0 by {}
    assert(tricks_total(t) == 0);
    assert forall|i: int|
        0 <= i < 4 implies t.prev_played[i].len() == tricks_total(t) + if seat_pos(t, i)
        < center_len(t) {
        1int
    } else {
        0int
    } by {}
    assert(t.curr == t.order[0]);
    assert(wf_phase(t));
}

/// Discarding preserves well-formedness: the dealer is back to five cards
/// and the seat left of the dealer leads the first trick.
proof fn lemma_discard_preserves_wf(v: GameView, a: Action)
    requires
        wf_view(v),
        phase_of(v) == GamePhase::Discarding,
        legal_actions_of(v).contains(a),
    ensures
        wf_view(discard_view(v, a)),
{
    lemma_legal_action_shape(v, a);
    let c = spec_action_card(a).unwrap();
    let hand = v.hands[v.curr as int];
    assert(concrete_cards(hand));
    lemma_remove_first_props(hand, c);
    let t = discard_view(v, a);
    assert(t.hands[v.curr as int].len() == 5);
    assert forall|i: int| 0 <= i < 4 implies concrete_cards(#[trigger] t.hands[i])
        && t.hands[i].len() == 5 by {
        if i != v.curr {
            assert(t.hands[i] == v.hands[i]);
            assert(v.hands[i].len() == 5);
        }
    }
    assert(tricks_total(t) == 0);
    assert forall|i: int|
        0 <= i < 4 implies t.prev_played[i].len() == tricks_total(t) + if seat_pos(t, i)
        < center_len(t) {
        1int
    } else {
        0int
    } by {}
    assert(t.curr == t.order[0]);
    assert(wf_phase(t));
}


/// Playing a card preserves well-formedness, through the mid-trick state,
/// the close of a full trick, and the end of the round.
#[verifier::rlimit(100)]
#[verifier::spinoff_prover]
pub proof fn lemma_play_preserves_wf(v: GameView, a: Action)
    requires
        wf_view(v),
        phase_of(v) == GamePhase::Leading || phase_of(v) == GamePhase::Following,
        legal_actions_of(v).contains(a),
    ensures
        wf_view(play_view(v, a)),
        center_len(play_card_view(v, spec_action_card(a).unwrap())) == 4 ==> ({
            let ended = end_trick_view(play_card_view(v, spec_action_card(a).unwrap()));
            &&& ended.curr < 4
            &&& ended.calling is Some
            &&& (ended.hands[ended.curr as int].len() == 0 ==> tricks_total(ended) == 5)
            &&& play_view(v, a) == if ended.hands[ended.curr as int].len() == 0 {
                finish_round_view(ended)
            } else {
                ended
            }
        }),
{
    lemma_legal_action_shape(v, a);
    lemma_seat_positions(v);
    let c = spec_action_card(a).unwrap();
    let hand = v.hands[v.curr as int];
    assert(concrete_cards(hand));
    lemma_remove_first_props(hand, c);
    let k = center_len(v);
    let trump = v.trump.unwrap();
    let v1 = play_card_view(v, c);
    let tt = tricks_total(v);

    // the card moved: one fewer in the hand, one more in the history and
    // the center; everything stays concrete
    assert(v1.hands[v.curr as int].len() == hand.len() - 1);
    assert forall|i: int| 0 <= i < 4 implies concrete_cards(#[trigger] v1.hands[i]) by {
        if i != v.curr {
            assert(v1.hands[i] == v.hands[i]);
        }
    }
    assert forall|i: int| 0 <= i < 4 implies concrete_cards(#[trigger] v1.prev_played[i]) by {
        assert(concrete_cards(v.prev_played[i]));
        if i == v.curr {
            assert forall|j: int| 0 <= j < v1.prev_played[i].len() implies concrete_card(
                #[trigger] v1.prev_played[i][j],
            ) by {
                if j < v.prev_played[i].len() {
                    assert(v1.prev_played[i][j] == v.prev_played[i][j]);
                }
            }
        } else {
            assert(v1.prev_played[i] == v.prev_played[i]);
        }
    }
    assert(concrete_cards(v1.center.unwrap())) by {
        let cc = v1.center.unwrap();
        assert forall|j: int| 0 <= j < cc.len() implies concrete_card(#[trigger] cc[j]) by {
            if v.center is Some && j < v.center.unwrap().len() {
                assert(cc[j] == v.center.unwrap()[j]);
            } else {
                assert(cc[j] == c);
            }
        }
    }
    assert(center_len(v1) == k + 1);
    assert(concrete_suit(v1.led_suit.unwrap()));

    // the current player had not yet played into this trick
    assert(seat_pos(v, v.curr as int) == k);
    assert(v.prev_played[v.curr as int].len() == tt);
    assert(hand.len() == 5 - tt);

    // the accounting after the card is played
    assert forall|i: int|
        0 <= i < 4 implies v1.prev_played[i].len() == tricks_total(v1) + if seat_pos(v1, i)
        < center_len(v1) {
        1int
    } else {
        0int
    } by {
        assert(tricks_total(v1) == tt);
        assert(seat_pos(v1, i) == seat_pos(v, i));
        if i == v.curr {
        } else {
            assert(seat_pos(v, i) != k);
            assert(v1.prev_played[i] == v.prev_played[i]);
        }
    }
    assert forall|i: int| 0 <= i < 4 implies #[trigger] v1.hands[i].len() + v1.prev_played[i].len()
        == 5 by {
        if i != v.curr {
            assert(v1.hands[i] == v.hands[i] && v1.prev_played[i] == v.prev_played[i]);
        }
    }

    if k + 1 < 4 {
        // mid-trick: the next seat in order acts
        assert(v1.curr == v1.order[center_len(v1)]) by {
            assert(v.curr == v.order[k]);
            assert(v.order[k] == ((v.order[0] + k) % 4) as u8);
            assert(v.order[k + 1] == ((v.order[0] + k + 1) % 4) as u8);
        }
        assert(wf_base(v1));
        assert(wf_phase(v1));
    } else {
        // the fourth card closes the trick
        lemma_winner_upto_bounds(trump, v1.center.unwrap(), 3);
        let widx = winner_upto(trump, v1.center.unwrap(), 3);
        let winner = spec_judge_trick(trump, v1.center.unwrap(), v1.order);
        assert(winner == v1.order[widx]);
        assert(winner < 4);
        let v2 = end_trick_view(v1);
        assert(v2.curr == winner);

        // each seat played exactly once into the full trick
        assert forall|i: int| 0 <= i < 4 implies #[trigger] v1.prev_played[i].len() == tt + 1 by {
            assert(seat_pos(v1, i) == seat_pos(v, i));
            assert(0 <= seat_pos(v, i) < 4);
        }
        assert(v.tricks[winner as int] <= tt) by {
            assert(forall|i: int| 0 <= i < 4 ==> v.tricks[i] >= 0);
        }
        assert(tricks_total(v2) == tt + 1);
        assert forall|i: int| 0 <= i < 4 implies concrete_cards(#[trigger] v2.hands[i])
            && concrete_cards(#[trigger] v2.prev_played[i]) && #[trigger] v2.hands[i].len()
            + v2.prev_played[i].len() == 5 && v2.prev_played[i].len() == tt + 1 by {
            assert(v2.hands[i] == v1.hands[i] && v2.prev_played[i] == v1.prev_played[i]);
        }
        assert(wf_base(v2)) by {
            assert(forall|i: int|
                0 <= i < 4 ==> #[trigger] v2.order[i] == ((v2.order[0] + i) % 4) as u8);
        }
        assert forall|i: int|
            0 <= i < 4 implies v2.prev_played[i].len() == tricks_total(v2) + if seat_pos(v2, i)
            < center_len(v2) {
            1int
        } else {
            0int
        } by {}
        if v2.hands[winner as int].len() == 0 {
            // the winner's empty hand ends the round
            let v3 = finish_round_view(v2);
            assert(v2.prev_played[winner as int].len() == 5);
            assert(tt == 4);
            assert(tricks_total(v3) == 5);
            assert(v3.scores.unwrap().len() == 4) by {
                let s = round_points(v2.tricks[0] + v2.tricks[2], v2.calling.unwrap() % 2 == 0);
                assert(s.len() == 4);
            }
            assert(wf_base(v3)) by {
                assert(forall|i: int|
                    0 <= i < 4 ==> #[trigger] v3.order[i] == ((v3.order[0] + i) % 4) as u8);
            }
            assert forall|i: int|
                0 <= i < 4 implies v3.prev_played[i].len() == tricks_total(v3) + if seat_pos(v3, i)
                < center_len(v3) {
                1int
            } else {
                0int
            } by {
                assert(v3.prev_played[i].len() == tt + 1);
            }
            assert(wf_phase(v3));
            assert(play_view(v, a) == v3);
        } else {
            // the winner leads the next trick
            assert(tt + 1 <= 4) by {
                assert(v2.hands[winner as int].len() + v2.prev_played[winner as int].len() == 5);
            }
            assert(v2.curr == v2.order[0]);
            assert(wf_phase(v2));
            assert(play_view(v, a) == v2);
        }
    }
}

/// Every step from a live well-formed state on a legal action lands in a
/// well-formed state: the state machine never leaves its invariant.
pub proof fn lemma_step_preserves_wf(v: GameView, a: Action)
    requires
        wf_view(v),
        !v.is_over,
        legal_actions_of(v).contains(a),
    ensures
        wf_view(step_view(v, a)),
{
    lemma_legal_action_shape(v, a);
    match phase_of(v) {
        GamePhase::ChoosingTrumpFlipAvailable => {
            if a == Action::Pick {
                lemma_pick_preserves_wf(v);
            } else {
                lemma_pass_preserves_wf(v);
            }
        },
        GamePhase::ChoosingTrumpFlipTurnedDown => {
            if a == Action::Pass {
                lemma_pass_preserves_wf(v);
            } else {
                lemma_call_preserves_wf(v, a);
            }
        },
        GamePhase::Discarding => {
            lemma_discard_preserves_wf(v, a);
            assert(step_view(v, a) == discard_view(v, a));
        },
        GamePhase::Leading => {
            lemma_play_preserves_wf(v, a);
            assert(step_view(v, a) == play_view(v, a));
        },
        GamePhase::Following => {
            lemma_play_preserves_wf(v, a);
            assert(step_view(v, a) == play_view(v, a));
        },
        GamePhase::Over => {
            assert(false);
        },
    }
}


/// Legal-action non-emptiness law: every well-formed state that is not
/// over offers at least one legal action.
pub proof fn lemma_legal_actions_nonempty(v: GameView)
    requires
        wf_view(v),
        !v.is_over,
    ensures
        legal_actions_of(v).len() > 0,
{
    let hand = v.hands[v.curr as int];
    match phase_of(v) {
        GamePhase::ChoosingTrumpFlipAvailable => {
        },
        GamePhase::ChoosingTrumpFlipTurnedDown => {
            assert(call_actions(v.flipped_card.suit).len() == 3);
        },
        GamePhase::Discarding => {
            assert(hand.len() == 6);
        },
        GamePhase::Leading => {
            lemma_seat_positions(v);
            if v.flipped_choice == Some(crate::action::FlippedChoice::PickedUp)
                && v.hands[v.dealer as int].len() == 6 {
                assert(v.curr == v.dealer);
                assert(false);
            }
            assert(seat_pos(v, v.curr as int) == 0);
            assert(v.prev_played[v.curr as int].len() == tricks_total(v));
            assert(hand.len() == 5 - tricks_total(v));
            assert(hand.len() >= 1);
        },
        GamePhase::Following => {
            lemma_seat_positions(v);
            if v.flipped_choice == Some(crate::action::FlippedChoice::PickedUp)
                && v.hands[v.dealer as int].len() == 6 {
                assert(v.curr == v.dealer);
                assert(false);
            }
            assert(seat_pos(v, v.curr as int) == center_len(v));
            assert(v.prev_played[v.curr as int].len() == tricks_total(v));
            assert(hand.len() == 5 - tricks_total(v));
            assert(hand.len() >= 1);
            let followers = follow_cards(hand, v.trump.unwrap(), v.led_suit.unwrap());
            if followers.len() > 0 {
                assert(hand_play_actions(followers).len() == followers.len());
            } else {
                assert(hand_play_actions(hand).len() == hand.len());
            }
        },
        GamePhase::Over => {
            assert(false);
        },
    }
}

/// Follow-suit enforcement law: while a suit is led, if the current hand
/// holds at least one card of the led effective suit, every legal Play
/// action names a card of that effective suit; with no such card the
/// legal set is the Play action of every card in the hand.
pub proof fn lemma_follow_suit_enforcement(v: GameView)
    requires
        wf_view(v),
        phase_of(v) == GamePhase::Following,
    ensures
        (exists|i: int|
            0 <= i < v.hands[v.curr as int].len() && (#[trigger] v.hands[v.curr as int][i])
                .effective_suit(v.trump.unwrap()) == v.led_suit.unwrap()) ==> (forall|j: int|
            0 <= j < legal_actions_of(v).len() ==> spec_action_card(
                #[trigger] legal_actions_of(v)[j],
            ).unwrap().effective_suit(v.trump.unwrap()) == v.led_suit.unwrap()),
        (forall|i: int|
            0 <= i < v.hands[v.curr as int].len() ==> (#[trigger] v.hands[v.curr as int][i])
                .effective_suit(v.trump.unwrap()) != v.led_suit.unwrap()) ==> legal_actions_of(v)
            == hand_play_actions(v.hands[v.curr as int]),
{
    let hand = v.hands[v.curr as int];
    let trump = v.trump.unwrap();
    let led = v.led_suit.unwrap();
    let pred = |c: Card| c.effective_suit(trump) == led;
    let followers = follow_cards(hand, trump, led);
    broadcast use vstd::seq_lib::group_filter_ensures;

    lemma_filter_keeps_elements(hand, pred);
    assert(concrete_cards(hand));
    if exists|i: int| 0 <= i < hand.len() && pred(#[trigger] hand[i]) {
        let i = choose|i: int| 0 <= i < hand.len() && pred(#[trigger] hand[i]);
        assert(followers.contains(hand[i]));
        assert(followers.len() > 0);
        assert(legal_actions_of(v) == hand_play_actions(followers));
        assert forall|j: int| 0 <= j < legal_actions_of(v).len() implies spec_action_card(
            #[trigger] legal_actions_of(v)[j],
        ).unwrap().effective_suit(trump) == led by {
            let c = followers[j];
            assert(pred(c));
            assert(hand.contains(c));
            assert(concrete_card(c));
            lemma_action_card_round_trip(c, true);
            assert(legal_actions_of(v)[j] == crate::action::play_action_of(c));
        }
    }
    if forall|i: int| 0 <= i < hand.len() ==> !pred(#[trigger] hand[i]) {
        if followers.len() > 0 {
            assert(pred(followers[0]));
            assert(hand.contains(followers[0]));
            assert(false);
        }
    }
}

/// Trick-count conservation law: stepping a live well-formed state keeps
/// the sum of the seats' trick counts at five or below, the round is over
/// exactly when the trick just closed left its winner with an empty hand,
/// and an ended round has exactly five tricks awarded and a score vector.
pub proof fn lemma_trick_count_conservation(v: GameView, a: Action)
    requires
        wf_view(v),
        !v.is_over,
        legal_actions_of(v).contains(a),
    ensures
        wf_view(step_view(v, a)),
        tricks_total(step_view(v, a)) <= 5,
        step_view(v, a).is_over <==> (6 <= spec_id(a) <= 29 && center_len(
            play_card_view(v, spec_action_card(a).unwrap()),
        ) == 4 && ({
            let ended = end_trick_view(play_card_view(v, spec_action_card(a).unwrap()));
            ended.hands[ended.curr as int].len() == 0
        })),
        step_view(v, a).is_over ==> tricks_total(step_view(v, a)) == 5 && step_view(
            v,
            a,
        ).scores is Some,
{
    lemma_legal_action_shape(v, a);
    lemma_step_preserves_wf(v, a);
    let t = step_view(v, a);
    match phase_of(v) {
        GamePhase::ChoosingTrumpFlipAvailable => {
            assert(!t.is_over);
            assert(forall|i: int| 0 <= i < 4 ==> t.tricks[i] == 0);
        },
        GamePhase::ChoosingTrumpFlipTurnedDown => {
            assert(!t.is_over);
            assert(forall|i: int| 0 <= i < 4 ==> t.tricks[i] == 0);
        },
        GamePhase::Discarding => {
            assert(!t.is_over);
            assert(forall|i: int| 0 <= i < 4 ==> t.tricks[i] == 0);
        },
        GamePhase::Leading => {
            assert(center_len(play_card_view(v, spec_action_card(a).unwrap())) == 1);
            assert(!t.is_over);
        },
        GamePhase::Following => {
            lemma_play_preserves_wf(v, a);
        },
        GamePhase::Over => {
            assert(false);
        },
    }
}

/// Determinism law: a game is a mathematical function of its construction
/// inputs and the actions fed to it. `EuchreGame::new` pins the fresh
/// state to `init_view(dealer_id, seed)` and `step` pins each successor to
/// `step_view`, so two games built from equal inputs and fed equal action
/// sequences pass through equal states and equal scoped projections.
pub proof fn lemma_replay_deterministic(
    v1: GameView,
    v2: GameView,
    acts1: Seq<Action>,
    acts2: Seq<Action>,
)
    requires
        v1 == v2,
        acts1 == acts2,
    ensures
        replay_from(v1, acts1) == replay_from(v2, acts2),
{
}


/// Every legal step strictly shrinks the game measure, so a game ends
/// after finitely many steps.
pub proof fn lemma_step_decreases(v: GameView, a: Action)
    requires
        wf_view(v),
        !v.is_over,
        legal_actions_of(v).contains(a),
    ensures
        game_measure(v) > 0,
        game_measure(step_view(v, a)) < game_measure(v),
{
    lemma_legal_action_shape(v, a);
    lemma_step_preserves_wf(v, a);
    let t = step_view(v, a);
    match phase_of(v) {
        GamePhase::ChoosingTrumpFlipAvailable => {
            if a == Action::Pick {
                assert(phase_of(t) == GamePhase::Discarding);
            } else {
                if v.curr == v.dealer {
                    assert(phase_of(t) == GamePhase::ChoosingTrumpFlipTurnedDown);
                    assert((v.dealer - v.curr + 4) % 4 == 0);
                    assert((t.dealer - t.curr + 4) % 4 <= 3);
                } else {
                    assert(phase_of(t) == GamePhase::ChoosingTrumpFlipAvailable);
                    assert((t.dealer - t.curr + 4) % 4 == (v.dealer - v.curr + 4) % 4 - 1);
                }
            }
        },
        GamePhase::ChoosingTrumpFlipTurnedDown => {
            if a == Action::Pass {
                assert(phase_of(t) == GamePhase::ChoosingTrumpFlipTurnedDown);
                assert((v.dealer - v.curr + 4) % 4 >= 1);
                assert((t.dealer - t.curr + 4) % 4 == (v.dealer - v.curr + 4) % 4 - 1);
            } else {
                assert(phase_of(t) == GamePhase::Leading);
                assert(forall|i: int| 0 <= i < 4 ==> #[trigger] t.hands[i].len() == 5);
                assert(sum_hands(t) == 20);
            }
        },
        GamePhase::Discarding => {
            lemma_remove_first_props(v.hands[v.curr as int], spec_action_card(a).unwrap());
            assert(phase_of(t) == GamePhase::Leading) by {
                assert(forall|i: int| 0 <= i < 4 ==> #[trigger] t.hands[i].len() == 5);
            }
            assert(sum_hands(t) == 20);
        },
        GamePhase::Leading => {
            lemma_play_case_measure(v, a);
        },
        GamePhase::Following => {
            lemma_play_case_measure(v, a);
        },
        GamePhase::Over => {
            assert(false);
        },
    }
}

/// Playing a card always removes one card from the hands in total, so the
/// measure of a play step shrinks whichever way the trick and round go.
proof fn lemma_play_case_measure(v: GameView, a: Action)
    requires
        wf_view(v),
        phase_of(v) == GamePhase::Leading || phase_of(v) == GamePhase::Following,
        legal_actions_of(v).contains(a),
    ensures
        game_measure(play_view(v, a)) < game_measure(v),
        step_view(v, a) == play_view(v, a),
{
    lemma_legal_action_shape(v, a);
    lemma_play_preserves_wf(v, a);
    let c = spec_action_card(a).unwrap();
    lemma_remove_first_props(v.hands[v.curr as int], c);
    let v1 = play_card_view(v, c);
    assert(sum_hands(v1) == sum_hands(v) - 1) by {
        assert forall|i: int| 0 <= i < 4 && i != v.curr implies #[trigger] v1.hands[i]
            == v.hands[i] by {}
    }
    assert(sum_hands(v) >= 1) by {
        assert(v.hands[v.curr as int].len() >= 1) by {
            assert(v.hands[v.curr as int].contains(c));
        }
        assert(forall|i: int| 0 <= i < 4 ==> #[trigger] v.hands[i].len() >= 0);
    }
    let t = play_view(v, a);
    if center_len(v1) == 4 {
        let v2 = end_trick_view(v1);
        assert(sum_hands(v2) == sum_hands(v1)) by {
            assert forall|i: int| 0 <= i < 4 implies #[trigger] v2.hands[i] == v1.hands[i] by {}
        }
        if v2.hands[v2.curr as int].len() == 0 {
            assert(phase_of(t) == GamePhase::Over);
        } else {
            assert(sum_hands(t) == sum_hands(v) - 1);
            assert(!(phase_of(t) == GamePhase::Discarding)) by {
                assert(wf_view(t));
                assert(t.hands[t.curr as int].len() + t.prev_played[t.curr as int].len() == 5);
            }
            assert(phase_of(t) == GamePhase::Leading);
        }
    } else {
        assert(sum_hands(t) == sum_hands(v) - 1);
        assert(!(phase_of(t) == GamePhase::Discarding)) by {
            assert(wf_view(t));
            assert(t.hands[t.curr as int].len() + t.prev_played[t.curr as int].len() == 5);
        }
        assert(phase_of(t) == GamePhase::Following);
    }
}

} // verus!
