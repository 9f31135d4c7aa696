//! Trick and round judging: which seat won a 4-card trick under a trump
//! suit, and how a round's trick counts turn into the 4-way point award.

use vstd::prelude::*;

use crate::card::{concrete_suit, Card, Suit};

verus! {

/// The index of the winning card among the first `k + 1` cards of
/// `center`, read left to right: a later card displaces the standing
/// candidate exactly when the candidate is lower than it.
pub open spec fn winner_upto(trump: Suit, center: Seq<Card>, k: int) -> int
    decreases k,
{
    if k <= 0 {
        0
    } else {
        let prev = winner_upto(trump, center, k - 1);
        if center[prev].spec_is_lower(trump, center[k]) {
            k
        } else {
            prev
        }
    }
}

/// The seat that wins a trick: `center[i]` was played by `order[i]`, and
/// the winner is the seat of the surviving candidate card.
pub open spec fn spec_judge_trick(trump: Suit, center: Seq<Card>, order: Seq<u8>) -> u8 {
    order[winner_upto(trump, center, center.len() - 1)]
}

/// The per-seat point award of a round, given how many tricks the team of
/// seats 0 and 2 took and whether that team called trump: a march scores 2
/// to each winner, a made call 1, and a euchre 2 to each defender.
pub open spec fn round_points(team_one_tricks: int, team_one_called: bool) -> Seq<u8> {
    if team_one_tricks == 5 {
        seq![2u8, 0u8, 2u8, 0u8]
    } else if team_one_tricks >= 3 {
        if team_one_called {
            seq![1u8, 0u8, 1u8, 0u8]
        } else {
            seq![2u8, 0u8, 2u8, 0u8]
        }
    } else if team_one_tricks == 0 {
        seq![0u8, 2u8, 0u8, 2u8]
    } else {
        if team_one_called {
            seq![0u8, 2u8, 0u8, 2u8]
        } else {
            seq![0u8, 1u8, 0u8, 1u8]
        }
    }
}

/// Resolves tricks and rounds; it holds no state of its own.
pub struct Judger {}

impl Judger {
    /// A fresh judger.
    pub fn new() -> Judger {
        Judger {  }
    }

    /// Returns the id of the seat that won this trick. `center[i]` was
    /// played by `order[i]`, and `center[0]` is the led card.
    pub fn judge_trick(&self, trump: Suit, center: &Vec<Card>, order: &Vec<u8>) -> (winner: u8)
        requires
            concrete_suit(trump),
            center@.len() == 4,
            order@.len() == 4,
        ensures
            winner == spec_judge_trick(trump, center@, order@),
    {
        let mut candidate_player: u8 = order[0];
        let mut candidate_card: Card = center[0];
        let mut i: usize = 1;
        while i <= 3
            invariant
                concrete_suit(trump),
                center@.len() == 4,
                order@.len() == 4,
                1 <= i <= 4,
                0 <= winner_upto(trump, center@, i - 1) < i,
                candidate_card == center@[winner_upto(trump, center@, i - 1)],
                candidate_player == order@[winner_upto(trump, center@, i - 1)],
            decreases 4 - i,
        {
            if candidate_card.is_lower(trump, center[i]) {
                candidate_card = center[i];
                candidate_player = order[i];
            }
            i += 1;
        }
        candidate_player
    }

    /// Turns the four seats' trick counts into the four seats' points.
    /// `tricks[i]` is what seat `i` took; `calling_id` named trump.
    pub fn judge_round(&self, tricks: Vec<u8>, calling_id: u8) -> (points: Vec<u8>)
        requires
            tricks@.len() == 4,
            tricks@[0] + tricks@[1] + tricks@[2] + tricks@[3] == 5,
        ensures
            points@ == round_points(tricks@[0] + tricks@[2], calling_id % 2 == 0),
    {
        let team_1_tricks: u8 = tricks[0] + tricks[2];
        let team_1_called: bool = calling_id % 2 == 0;
        let points: Vec<u8> = if team_1_tricks == 5 {
            vec![2, 0, 2, 0]
        } else if team_1_tricks >= 3 {
            if team_1_called {
                vec![1, 0, 1, 0]
            } else {
                vec![2, 0, 2, 0]
            }
        } else if team_1_tricks == 0 {
            vec![0, 2, 0, 2]
        } else {
            if team_1_called {
                vec![0, 2, 0, 2]
            } else {
                vec![0, 1, 0, 1]
            }
        };
        proof {
            assert(points@ =~= round_points(tricks@[0] + tricks@[2], calling_id % 2 == 0));
        }
        points
    }
}


/// The surviving candidate of a fold over `k + 1` cards sits among them.
pub proof fn lemma_winner_upto_bounds(trump: Suit, center: Seq<Card>, k: int)
    requires
        k >= 0,
    ensures
        0 <= winner_upto(trump, center, k) <= k,
    decreases k,
{
    if k > 0 {
        lemma_winner_upto_bounds(trump, center, k - 1);
    }
}


/// Under a concrete trump, a card judged lower never judges its better
/// lower in turn, for two distinct cards.
pub proof fn lemma_is_lower_asymmetric(trump: Suit, a: Card, b: Card)
    requires
        concrete_suit(trump),
        a != b,
        a.spec_is_lower(trump, b),
    ensures
        !b.spec_is_lower(trump, a),
{
}

/// Losing carries over: a card that loses to `b` but not to `c` leaves `b`
/// not losing to `c` either, so the surviving fold candidate stands above
/// every card it ever displaced.
pub proof fn lemma_is_lower_transfer(trump: Suit, a: Card, b: Card, c: Card)
    requires
        concrete_suit(trump),
        a.spec_is_lower(trump, b),
        !a.spec_is_lower(trump, c),
    ensures
        !b.spec_is_lower(trump, c),
{
}

/// The surviving fold candidate among the first `k + 1` of four distinct
/// cards is not lower than any of them.
proof fn lemma_winner_upto_supreme(trump: Suit, center: Seq<Card>, k: int)
    requires
        concrete_suit(trump),
        center.len() == 4,
        forall|i: int, j: int| 0 <= i < j < 4 ==> center[i] != center[j],
        0 <= k <= 3,
    ensures
        ({
            let w = winner_upto(trump, center, k);
            &&& 0 <= w <= k
            &&& forall|j: int|
                0 <= j <= k && j != w ==> !center[w].spec_is_lower(trump, #[trigger] center[j])
        }),
    decreases k,
{
    lemma_winner_upto_bounds(trump, center, k);
    if k > 0 {
        lemma_winner_upto_supreme(trump, center, k - 1);
        let prev = winner_upto(trump, center, k - 1);
        let w = winner_upto(trump, center, k);
        if center[prev].spec_is_lower(trump, center[k]) {
            // the new card displaces the candidate and stands above
            // everything the candidate stood above
            assert(w == k);
            lemma_is_lower_asymmetric(trump, center[prev], center[k]);
            assert forall|j: int|
                0 <= j <= k && j != w implies !center[w].spec_is_lower(
                trump,
                #[trigger] center[j],
            ) by {
                if j != prev {
                    lemma_is_lower_transfer(trump, center[prev], center[k], center[j]);
                }
            }
        } else {
            assert(w == prev);
        }
    }
}

/// The judged winner of a trick of four distinct cards holds a card that
/// is not lower than any other card of the trick.
pub proof fn lemma_judge_trick_winner_supreme(trump: Suit, center: Seq<Card>, order: Seq<u8>)
    requires
        concrete_suit(trump),
        center.len() == 4,
        order.len() == 4,
        forall|i: int, j: int| 0 <= i < j < 4 ==> center[i] != center[j],
    ensures
        ({
            let w = winner_upto(trump, center, 3);
            &&& 0 <= w < 4
            &&& spec_judge_trick(trump, center, order) == order[w]
            &&& forall|j: int|
                0 <= j < 4 && j != w ==> !center[w].spec_is_lower(trump, #[trigger] center[j])
        }),
{
    lemma_winner_upto_supreme(trump, center, 3);
}

} // verus!
