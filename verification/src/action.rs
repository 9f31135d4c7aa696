//! The action codec: the closed set of 54 discrete actions a game can
//! accept (bidding calls, card plays, card discards), the bidirectional
//! mapping between card actions and cards, and name-based parsing.

use vstd::prelude::*;

use crate::card::{concrete_card, Card, Rank, Suit};

verus! {

/// One of the 54 actions, with fixed identifiers 0-53 in declaration
/// order: Pass is 0, Pick 1, the four trump calls 2-5, one Play action per
/// card at 6-29 and one Discard action per card at 30-53, the Discard id of
/// a card sitting 24 above its Play id.
#[derive(Debug, Copy, Clone, Eq, PartialEq, Structural)]
pub enum Action {
    Pass,
    Pick,
    CallH,
    CallD,
    CallS,
    CallC,
    HAPlay,
    HKPlay,
    HQPlay,
    HJPlay,
    HTPlay,
    H9Play,
    DAPlay,
    DKPlay,
    DQPlay,
    DJPlay,
    DTPlay,
    D9Play,
    SAPlay,
    SKPlay,
    SQPlay,
    SJPlay,
    STPlay,
    S9Play,
    CAPlay,
    CKPlay,
    CQPlay,
    CJPlay,
    CTPlay,
    C9Play,
    HADiscard,
    HKDiscard,
    HQDiscard,
    HJDiscard,
    HTDiscard,
    H9Discard,
    DADiscard,
    DKDiscard,
    DQDiscard,
    DJDiscard,
    DTDiscard,
    D9Discard,
    SADiscard,
    SKDiscard,
    SQDiscard,
    SJDiscard,
    STDiscard,
    S9Discard,
    CADiscard,
    CKDiscard,
    CQDiscard,
    CJDiscard,
    CTDiscard,
    C9Discard,
}

/// What the dealer's side did with the flipped card: picked it up into the
/// dealer's hand, or turned it down to open the second bidding round.
#[derive(Debug, Copy, Clone, Eq, PartialEq, Structural)]
pub enum FlippedChoice {
    PickedUp,
    TurnedDown,
}

/// The fixed identifier of an action.
pub open spec fn spec_id(a: Action) -> int {
    match a {
        Action::Pass => 0,
        Action::Pick => 1,
        Action::CallH => 2,
        Action::CallD => 3,
        Action::CallS => 4,
        Action::CallC => 5,
        Action::HAPlay => 6,
        Action::HKPlay => 7,
        Action::HQPlay => 8,
        Action::HJPlay => 9,
        Action::HTPlay => 10,
        Action::H9Play => 11,
        Action::DAPlay => 12,
        Action::DKPlay => 13,
        Action::DQPlay => 14,
        Action::DJPlay => 15,
        Action::DTPlay => 16,
        Action::D9Play => 17,
        Action::SAPlay => 18,
        Action::SKPlay => 19,
        Action::SQPlay => 20,
        Action::SJPlay => 21,
        Action::STPlay => 22,
        Action::S9Play => 23,
        Action::CAPlay => 24,
        Action::CKPlay => 25,
        Action::CQPlay => 26,
        Action::CJPlay => 27,
        Action::CTPlay => 28,
        Action::C9Play => 29,
        Action::HADiscard => 30,
        Action::HKDiscard => 31,
        Action::HQDiscard => 32,
        Action::HJDiscard => 33,
        Action::HTDiscard => 34,
        Action::H9Discard => 35,
        Action::DADiscard => 36,
        Action::DKDiscard => 37,
        Action::DQDiscard => 38,
        Action::DJDiscard => 39,
        Action::DTDiscard => 40,
        Action::D9Discard => 41,
        Action::SADiscard => 42,
        Action::SKDiscard => 43,
        Action::SQDiscard => 44,
        Action::SJDiscard => 45,
        Action::STDiscard => 46,
        Action::S9Discard => 47,
        Action::CADiscard => 48,
        Action::CKDiscard => 49,
        Action::CQDiscard => 50,
        Action::CJDiscard => 51,
        Action::CTDiscard => 52,
        Action::C9Discard => 53,
    }
}

/// The action holding identifier `n`, for `n` between 0 and 53.
pub open spec fn action_of_id(n: int) -> Action
    recommends
        0 <= n < 54,
{
    if n == 0 {
        Action::Pass
    } else if n == 1 {
        Action::Pick
    } else if n == 2 {
        Action::CallH
    } else if n == 3 {
        Action::CallD
    } else if n == 4 {
        Action::CallS
    } else if n == 5 {
        Action::CallC
    } else if n == 6 {
        Action::HAPlay
    } else if n == 7 {
        Action::HKPlay
    } else if n == 8 {
        Action::HQPlay
    } else if n == 9 {
        Action::HJPlay
    } else if n == 10 {
        Action::HTPlay
    } else if n == 11 {
        Action::H9Play
    } else if n == 12 {
        Action::DAPlay
    } else if n == 13 {
        Action::DKPlay
    } else if n == 14 {
        Action::DQPlay
    } else if n == 15 {
        Action::DJPlay
    } else if n == 16 {
        Action::DTPlay
    } else if n == 17 {
        Action::D9Play
    } else if n == 18 {
        Action::SAPlay
    } else if n == 19 {
        Action::SKPlay
    } else if n == 20 {
        Action::SQPlay
    } else if n == 21 {
        Action::SJPlay
    } else if n == 22 {
        Action::STPlay
    } else if n == 23 {
        Action::S9Play
    } else if n == 24 {
        Action::CAPlay
    } else if n == 25 {
        Action::CKPlay
    } else if n == 26 {
        Action::CQPlay
    } else if n == 27 {
        Action::CJPlay
    } else if n == 28 {
        Action::CTPlay
    } else if n == 29 {
        Action::C9Play
    } else if n == 30 {
        Action::HADiscard
    } else if n == 31 {
        Action::HKDiscard
    } else if n == 32 {
        Action::HQDiscard
    } else if n == 33 {
        Action::HJDiscard
    } else if n == 34 {
        Action::HTDiscard
    } else if n == 35 {
        Action::H9Discard
    } else if n == 36 {
        Action::DADiscard
    } else if n == 37 {
        Action::DKDiscard
    } else if n == 38 {
        Action::DQDiscard
    } else if n == 39 {
        Action::DJDiscard
    } else if n == 40 {
        Action::DTDiscard
    } else if n == 41 {
        Action::D9Discard
    } else if n == 42 {
        Action::SADiscard
    } else if n == 43 {
        Action::SKDiscard
    } else if n == 44 {
        Action::SQDiscard
    } else if n == 45 {
        Action::SJDiscard
    } else if n == 46 {
        Action::STDiscard
    } else if n == 47 {
        Action::S9Discard
    } else if n == 48 {
        Action::CADiscard
    } else if n == 49 {
        Action::CKDiscard
    } else if n == 50 {
        Action::CQDiscard
    } else if n == 51 {
        Action::CJDiscard
    } else if n == 52 {
        Action::CTDiscard
    } else {
        Action::C9Discard
    }
}

/// The card that a Play or Discard action names, and `None` for the six
/// bidding actions, which name no card.
pub open spec fn spec_action_card(a: Action) -> Option<Card> {
    match a {
        Action::Pass => None,
        Action::Pick => None,
        Action::CallH => None,
        Action::CallD => None,
        Action::CallS => None,
        Action::CallC => None,
        Action::HAPlay => Some(Card { suit: Suit::Hearts, rank: Rank::Ace }),
        Action::HKPlay => Some(Card { suit: Suit::Hearts, rank: Rank::King }),
        Action::HQPlay => Some(Card { suit: Suit::Hearts, rank: Rank::Queen }),
        Action::HJPlay => Some(Card { suit: Suit::Hearts, rank: Rank::Jack }),
        Action::HTPlay => Some(Card { suit: Suit::Hearts, rank: Rank::Ten }),
        Action::H9Play => Some(Card { suit: Suit::Hearts, rank: Rank::Nine }),
        Action::DAPlay => Some(Card { suit: Suit::Diamonds, rank: Rank::Ace }),
        Action::DKPlay => Some(Card { suit: Suit::Diamonds, rank: Rank::King }),
        Action::DQPlay => Some(Card { suit: Suit::Diamonds, rank: Rank::Queen }),
        Action::DJPlay => Some(Card { suit: Suit::Diamonds, rank: Rank::Jack }),
        Action::DTPlay => Some(Card { suit: Suit::Diamonds, rank: Rank::Ten }),
        Action::D9Play => Some(Card { suit: Suit::Diamonds, rank: Rank::Nine }),
        Action::SAPlay => Some(Card { suit: Suit::Spades, rank: Rank::Ace }),
        Action::SKPlay => Some(Card { suit: Suit::Spades, rank: Rank::King }),
        Action::SQPlay => Some(Card { suit: Suit::Spades, rank: Rank::Queen }),
        Action::SJPlay => Some(Card { suit: Suit::Spades, rank: Rank::Jack }),
        Action::STPlay => Some(Card { suit: Suit::Spades, rank: Rank::Ten }),
        Action::S9Play => Some(Card { suit: Suit::Spades, rank: Rank::Nine }),
        Action::CAPlay => Some(Card { suit: Suit::Clubs, rank: Rank::Ace }),
        Action::CKPlay => Some(Card { suit: Suit::Clubs, rank: Rank::King }),
        Action::CQPlay => Some(Card { suit: Suit::Clubs, rank: Rank::Queen }),
        Action::CJPlay => Some(Card { suit: Suit::Clubs, rank: Rank::Jack }),
        Action::CTPlay => Some(Card { suit: Suit::Clubs, rank: Rank::Ten }),
        Action::C9Play => Some(Card { suit: Suit::Clubs, rank: Rank::Nine }),
        Action::HADiscard => Some(Card { suit: Suit::Hearts, rank: Rank::Ace }),
        Action::HKDiscard => Some(Card { suit: Suit::Hearts, rank: Rank::King }),
        Action::HQDiscard => Some(Card { suit: Suit::Hearts, rank: Rank::Queen }),
        Action::HJDiscard => Some(Card { suit: Suit::Hearts, rank: Rank::Jack }),
        Action::HTDiscard => Some(Card { suit: Suit::Hearts, rank: Rank::Ten }),
        Action::H9Discard => Some(Card { suit: Suit::Hearts, rank: Rank::Nine }),
        Action::DADiscard => Some(Card { suit: Suit::Diamonds, rank: Rank::Ace }),
        Action::DKDiscard => Some(Card { suit: Suit::Diamonds, rank: Rank::King }),
        Action::DQDiscard => Some(Card { suit: Suit::Diamonds, rank: Rank::Queen }),
        Action::DJDiscard => Some(Card { suit: Suit::Diamonds, rank: Rank::Jack }),
        Action::DTDiscard => Some(Card { suit: Suit::Diamonds, rank: Rank::Ten }),
        Action::D9Discard => Some(Card { suit: Suit::Diamonds, rank: Rank::Nine }),
        Action::SADiscard => Some(Card { suit: Suit::Spades, rank: Rank::Ace }),
        Action::SKDiscard => Some(Card { suit: Suit::Spades, rank: Rank::King }),
        Action::SQDiscard => Some(Card { suit: Suit::Spades, rank: Rank::Queen }),
        Action::SJDiscard => Some(Card { suit: Suit::Spades, rank: Rank::Jack }),
        Action::STDiscard => Some(Card { suit: Suit::Spades, rank: Rank::Ten }),
        Action::S9Discard => Some(Card { suit: Suit::Spades, rank: Rank::Nine }),
        Action::CADiscard => Some(Card { suit: Suit::Clubs, rank: Rank::Ace }),
        Action::CKDiscard => Some(Card { suit: Suit::Clubs, rank: Rank::King }),
        Action::CQDiscard => Some(Card { suit: Suit::Clubs, rank: Rank::Queen }),
        Action::CJDiscard => Some(Card { suit: Suit::Clubs, rank: Rank::Jack }),
        Action::CTDiscard => Some(Card { suit: Suit::Clubs, rank: Rank::Ten }),
        Action::C9Discard => Some(Card { suit: Suit::Clubs, rank: Rank::Nine }),
    }
}

/// The Play action that names `c`.
pub open spec fn play_action_of(c: Card) -> Action
    recommends
        concrete_card(c),
{
    match c.suit {
        Suit::Hearts => match c.rank {
            Rank::Ace => Action::HAPlay,
            Rank::King => Action::HKPlay,
            Rank::Queen => Action::HQPlay,
            Rank::Jack => Action::HJPlay,
            Rank::Ten => Action::HTPlay,
            Rank::Nine => Action::H9Play,
            Rank::Unset => Action::Pass,
        },
        Suit::Diamonds => match c.rank {
            Rank::Ace => Action::DAPlay,
            Rank::King => Action::DKPlay,
            Rank::Queen => Action::DQPlay,
            Rank::Jack => Action::DJPlay,
            Rank::Ten => Action::DTPlay,
            Rank::Nine => Action::D9Play,
            Rank::Unset => Action::Pass,
        },
        Suit::Spades => match c.rank {
            Rank::Ace => Action::SAPlay,
            Rank::King => Action::SKPlay,
            Rank::Queen => Action::SQPlay,
            Rank::Jack => Action::SJPlay,
            Rank::Ten => Action::STPlay,
            Rank::Nine => Action::S9Play,
            Rank::Unset => Action::Pass,
        },
        Suit::Clubs => match c.rank {
            Rank::Ace => Action::CAPlay,
            Rank::King => Action::CKPlay,
            Rank::Queen => Action::CQPlay,
            Rank::Jack => Action::CJPlay,
            Rank::Ten => Action::CTPlay,
            Rank::Nine => Action::C9Play,
            Rank::Unset => Action::Pass,
        },
        Suit::Unset => Action::Pass,
    }
}

/// The Discard action that names `c`.
pub open spec fn discard_action_of(c: Card) -> Action
    recommends
        concrete_card(c),
{
    match c.suit {
        Suit::Hearts => match c.rank {
            Rank::Ace => Action::HADiscard,
            Rank::King => Action::HKDiscard,
            Rank::Queen => Action::HQDiscard,
            Rank::Jack => Action::HJDiscard,
            Rank::Ten => Action::HTDiscard,
            Rank::Nine => Action::H9Discard,
            Rank::Unset => Action::Pass,
        },
        Suit::Diamonds => match c.rank {
            Rank::Ace => Action::DADiscard,
            Rank::King => Action::DKDiscard,
            Rank::Queen => Action::DQDiscard,
            Rank::Jack => Action::DJDiscard,
            Rank::Ten => Action::DTDiscard,
            Rank::Nine => Action::D9Discard,
            Rank::Unset => Action::Pass,
        },
        Suit::Spades => match c.rank {
            Rank::Ace => Action::SADiscard,
            Rank::King => Action::SKDiscard,
            Rank::Queen => Action::SQDiscard,
            Rank::Jack => Action::SJDiscard,
            Rank::Ten => Action::STDiscard,
            Rank::Nine => Action::S9Discard,
            Rank::Unset => Action::Pass,
        },
        Suit::Clubs => match c.rank {
            Rank::Ace => Action::CADiscard,
            Rank::King => Action::CKDiscard,
            Rank::Queen => Action::CQDiscard,
            Rank::Jack => Action::CJDiscard,
            Rank::Ten => Action::CTDiscard,
            Rank::Nine => Action::C9Discard,
            Rank::Unset => Action::Pass,
        },
        Suit::Unset => Action::Pass,
    }
}

/// The action that names `c`: its Play action when `is_play` holds, else
/// its Discard action.
pub open spec fn spec_card_to_action(c: Card, is_play: bool) -> Action {
    if is_play {
        play_action_of(c)
    } else {
        discard_action_of(c)
    }
}

/// The name of an action, as its parser and its messages spell it.
pub open spec fn spec_action_name(a: Action) -> Seq<char> {
    match a {
        Action::Pass => "Pass"@,
        Action::Pick => "Pick"@,
        Action::CallH => "CallH"@,
        Action::CallD => "CallD"@,
        Action::CallS => "CallS"@,
        Action::CallC => "CallC"@,
        Action::HAPlay => "HAPlay"@,
        Action::HKPlay => "HKPlay"@,
        Action::HQPlay => "HQPlay"@,
        Action::HJPlay => "HJPlay"@,
        Action::HTPlay => "HTPlay"@,
        Action::H9Play => "H9Play"@,
        Action::DAPlay => "DAPlay"@,
        Action::DKPlay => "DKPlay"@,
        Action::DQPlay => "DQPlay"@,
        Action::DJPlay => "DJPlay"@,
        Action::DTPlay => "DTPlay"@,
        Action::D9Play => "D9Play"@,
        Action::SAPlay => "SAPlay"@,
        Action::SKPlay => "SKPlay"@,
        Action::SQPlay => "SQPlay"@,
        Action::SJPlay => "SJPlay"@,
        Action::STPlay => "STPlay"@,
        Action::S9Play => "S9Play"@,
        Action::CAPlay => "CAPlay"@,
        Action::CKPlay => "CKPlay"@,
        Action::CQPlay => "CQPlay"@,
        Action::CJPlay => "CJPlay"@,
        Action::CTPlay => "CTPlay"@,
        Action::C9Play => "C9Play"@,
        Action::HADiscard => "HADiscard"@,
        Action::HKDiscard => "HKDiscard"@,
        Action::HQDiscard => "HQDiscard"@,
        Action::HJDiscard => "HJDiscard"@,
        Action::HTDiscard => "HTDiscard"@,
        Action::H9Discard => "H9Discard"@,
        Action::DADiscard => "DADiscard"@,
        Action::DKDiscard => "DKDiscard"@,
        Action::DQDiscard => "DQDiscard"@,
        Action::DJDiscard => "DJDiscard"@,
        Action::DTDiscard => "DTDiscard"@,
        Action::D9Discard => "D9Discard"@,
        Action::SADiscard => "SADiscard"@,
        Action::SKDiscard => "SKDiscard"@,
        Action::SQDiscard => "SQDiscard"@,
        Action::SJDiscard => "SJDiscard"@,
        Action::STDiscard => "STDiscard"@,
        Action::S9Discard => "S9Discard"@,
        Action::CADiscard => "CADiscard"@,
        Action::CKDiscard => "CKDiscard"@,
        Action::CQDiscard => "CQDiscard"@,
        Action::CJDiscard => "CJDiscard"@,
        Action::CTDiscard => "CTDiscard"@,
        Action::C9Discard => "C9Discard"@,
    }
}

/// The character `c` with an ASCII capital folded to its small form.
pub open spec fn lower_char(c: char) -> char {
    match c {
        'A' => 'a',
        'B' => 'b',
        'C' => 'c',
        'D' => 'd',
        'E' => 'e',
        'F' => 'f',
        'G' => 'g',
        'H' => 'h',
        'I' => 'i',
        'J' => 'j',
        'K' => 'k',
        'L' => 'l',
        'M' => 'm',
        'N' => 'n',
        'O' => 'o',
        'P' => 'p',
        'Q' => 'q',
        'R' => 'r',
        'S' => 's',
        'T' => 't',
        'U' => 'u',
        'V' => 'v',
        'W' => 'w',
        'X' => 'x',
        'Y' => 'y',
        'Z' => 'z',
        _ => c,
    }
}

/// The text `s` with every ASCII capital folded to its small form.
pub open spec fn lower_chars(s: Seq<char>) -> Seq<char> {
    s.map_values(|c: char| lower_char(c))
}

/// The decimal digit `d` as a character.
pub open spec fn digit_char(d: int) -> char {
    if d == 0 {
        '0'
    } else if d == 1 {
        '1'
    } else if d == 2 {
        '2'
    } else if d == 3 {
        '3'
    } else if d == 4 {
        '4'
    } else if d == 5 {
        '5'
    } else if d == 6 {
        '6'
    } else if d == 7 {
        '7'
    } else if d == 8 {
        '8'
    } else {
        '9'
    }
}

/// The decimal rendering of a non-negative number.
pub open spec fn decimal_chars(n: int) -> Seq<char>
    recommends
        n >= 0,
    decreases n,
{
    if n < 10 {
        seq![digit_char(n)]
    } else {
        decimal_chars(n / 10).push(digit_char(n % 10))
    }
}

/// The message returned when an integer has no action.
pub open spec fn no_action_message(n: int) -> Seq<char> {
    "Integer "@ + decimal_chars(n) + " has no corresponding Action."@
}

/// The message returned when a bidding action is asked for its card.
pub open spec fn no_card_message(a: Action) -> Seq<char> {
    "The action "@ + spec_action_name(a) + " has no mapping to a Card"@
}

/// The message returned when a name matches no action.
pub open spec fn no_match_message() -> Seq<char> {
    "No Action matches the given name"@
}

/// Returns `c` with an ASCII capital folded to its small form.
fn lower_char_exec(c: char) -> (r: char)
    ensures
        r == lower_char(c),
{
    match c {
        'A' => 'a',
        'B' => 'b',
        'C' => 'c',
        'D' => 'd',
        'E' => 'e',
        'F' => 'f',
        'G' => 'g',
        'H' => 'h',
        'I' => 'i',
        'J' => 'j',
        'K' => 'k',
        'L' => 'l',
        'M' => 'm',
        'N' => 'n',
        'O' => 'o',
        'P' => 'p',
        'Q' => 'q',
        'R' => 'r',
        'S' => 's',
        'T' => 't',
        'U' => 'u',
        'V' => 'v',
        'W' => 'w',
        'X' => 'x',
        'Y' => 'y',
        'Z' => 'z',
        _ => c,
    }
}

/// Returns whether `a` and `b` spell the same text up to ASCII case.
fn eq_ignore_case(a: &str, b: &str) -> (r: bool)
    ensures
        r == (lower_chars(a@) == lower_chars(b@)),
{
    let a_len: usize = a.unicode_len();
    let b_len: usize = b.unicode_len();
    if a_len != b_len {
        proof {
            assert(lower_chars(a@).len() != lower_chars(b@).len());
        }
        return false;
    }
    let mut i: usize = 0;
    while i < a_len
        invariant
            a_len == a@.len(),
            a_len == b@.len(),
            i <= a_len,
            forall|j: int| 0 <= j < i ==> lower_chars(a@)[j] == lower_chars(b@)[j],
        decreases a_len - i,
    {
        if lower_char_exec(a.get_char(i)) != lower_char_exec(b.get_char(i)) {
            proof {
                assert(lower_chars(a@)[i as int] != lower_chars(b@)[i as int]);
            }
            return false;
        }
        i += 1;
    }
    proof {
        assert(lower_chars(a@) =~= lower_chars(b@));
    }
    true
}

/// Returns the single decimal digit `d` as text.
fn digit_str(d: u8) -> (s: &'static str)
    requires
        d < 10,
    ensures
        s@ == seq![digit_char(d as int)],
{
    proof {
        reveal_strlit("0");
        reveal_strlit("1");
        reveal_strlit("2");
        reveal_strlit("3");
        reveal_strlit("4");
        reveal_strlit("5");
        reveal_strlit("6");
        reveal_strlit("7");
        reveal_strlit("8");
        reveal_strlit("9");
    }
    let s = match d {
        0 => "0",
        1 => "1",
        2 => "2",
        3 => "3",
        4 => "4",
        5 => "5",
        6 => "6",
        7 => "7",
        8 => "8",
        _ => "9",
    };
    proof {
        assert(s@ =~= seq![digit_char(d as int)]);
    }
    s
}

/// Renders a number in decimal.
fn u8_decimal(n: u8) -> (s: String)
    ensures
        s@ == decimal_chars(n as int),
    decreases n,
{
    if n < 10 {
        digit_str(n).to_owned()
    } else {
        let mut s = u8_decimal(n / 10);
        s.append(digit_str(n % 10));
        proof {
            assert(s@ =~= decimal_chars(n as int));
        }
        s
    }
}

impl Action {
    /// This action's fixed identifier.
    pub fn id(&self) -> (n: u8)
        ensures
            n == spec_id(*self),
    {
        match *self {
            Action::Pass => 0,
            Action::Pick => 1,
            Action::CallH => 2,
            Action::CallD => 3,
            Action::CallS => 4,
            Action::CallC => 5,
            Action::HAPlay => 6,
            Action::HKPlay => 7,
            Action::HQPlay => 8,
            Action::HJPlay => 9,
            Action::HTPlay => 10,
            Action::H9Play => 11,
            Action::DAPlay => 12,
            Action::DKPlay => 13,
            Action::DQPlay => 14,
            Action::DJPlay => 15,
            Action::DTPlay => 16,
            Action::D9Play => 17,
            Action::SAPlay => 18,
            Action::SKPlay => 19,
            Action::SQPlay => 20,
            Action::SJPlay => 21,
            Action::STPlay => 22,
            Action::S9Play => 23,
            Action::CAPlay => 24,
            Action::CKPlay => 25,
            Action::CQPlay => 26,
            Action::CJPlay => 27,
            Action::CTPlay => 28,
            Action::C9Play => 29,
            Action::HADiscard => 30,
            Action::HKDiscard => 31,
            Action::HQDiscard => 32,
            Action::HJDiscard => 33,
            Action::HTDiscard => 34,
            Action::H9Discard => 35,
            Action::DADiscard => 36,
            Action::DKDiscard => 37,
            Action::DQDiscard => 38,
            Action::DJDiscard => 39,
            Action::DTDiscard => 40,
            Action::D9Discard => 41,
            Action::SADiscard => 42,
            Action::SKDiscard => 43,
            Action::SQDiscard => 44,
            Action::SJDiscard => 45,
            Action::STDiscard => 46,
            Action::S9Discard => 47,
            Action::CADiscard => 48,
            Action::CKDiscard => 49,
            Action::CQDiscard => 50,
            Action::CJDiscard => 51,
            Action::CTDiscard => 52,
            Action::C9Discard => 53,
        }
    }

    /// The action holding identifier `id`.
    fn of_index(id: u8) -> (a: Action)
        requires
            id < 54,
        ensures
            a == action_of_id(id as int),
            spec_id(a) == id,
    {
        match id {
        0 => Action::Pass,
        1 => Action::Pick,
        2 => Action::CallH,
        3 => Action::CallD,
        4 => Action::CallS,
        5 => Action::CallC,
        6 => Action::HAPlay,
        7 => Action::HKPlay,
        8 => Action::HQPlay,
        9 => Action::HJPlay,
        10 => Action::HTPlay,
        11 => Action::H9Play,
        12 => Action::DAPlay,
        13 => Action::DKPlay,
        14 => Action::DQPlay,
        15 => Action::DJPlay,
        16 => Action::DTPlay,
        17 => Action::D9Play,
        18 => Action::SAPlay,
        19 => Action::SKPlay,
        20 => Action::SQPlay,
        21 => Action::SJPlay,
        22 => Action::STPlay,
        23 => Action::S9Play,
        24 => Action::CAPlay,
        25 => Action::CKPlay,
        26 => Action::CQPlay,
        27 => Action::CJPlay,
        28 => Action::CTPlay,
        29 => Action::C9Play,
        30 => Action::HADiscard,
        31 => Action::HKDiscard,
        32 => Action::HQDiscard,
        33 => Action::HJDiscard,
        34 => Action::HTDiscard,
        35 => Action::H9Discard,
        36 => Action::DADiscard,
        37 => Action::DKDiscard,
        38 => Action::DQDiscard,
        39 => Action::DJDiscard,
        40 => Action::DTDiscard,
        41 => Action::D9Discard,
        42 => Action::SADiscard,
        43 => Action::SKDiscard,
        44 => Action::SQDiscard,
        45 => Action::SJDiscard,
        46 => Action::STDiscard,
        47 => Action::S9Discard,
        48 => Action::CADiscard,
        49 => Action::CKDiscard,
        50 => Action::CQDiscard,
        51 => Action::CJDiscard,
        52 => Action::CTDiscard,
        _ => Action::C9Discard,
        }
    }

    /// The name of this action, as its parser spells it.
    pub fn name(&self) -> (s: &'static str)
        ensures
            s@ == spec_action_name(*self),
    {
        match *self {
        Action::Pass => "Pass",
        Action::Pick => "Pick",
        Action::CallH => "CallH",
        Action::CallD => "CallD",
        Action::CallS => "CallS",
        Action::CallC => "CallC",
        Action::HAPlay => "HAPlay",
        Action::HKPlay => "HKPlay",
        Action::HQPlay => "HQPlay",
        Action::HJPlay => "HJPlay",
        Action::HTPlay => "HTPlay",
        Action::H9Play => "H9Play",
        Action::DAPlay => "DAPlay",
        Action::DKPlay => "DKPlay",
        Action::DQPlay => "DQPlay",
        Action::DJPlay => "DJPlay",
        Action::DTPlay => "DTPlay",
        Action::D9Play => "D9Play",
        Action::SAPlay => "SAPlay",
        Action::SKPlay => "SKPlay",
        Action::SQPlay => "SQPlay",
        Action::SJPlay => "SJPlay",
        Action::STPlay => "STPlay",
        Action::S9Play => "S9Play",
        Action::CAPlay => "CAPlay",
        Action::CKPlay => "CKPlay",
        Action::CQPlay => "CQPlay",
        Action::CJPlay => "CJPlay",
        Action::CTPlay => "CTPlay",
        Action::C9Play => "C9Play",
        Action::HADiscard => "HADiscard",
        Action::HKDiscard => "HKDiscard",
        Action::HQDiscard => "HQDiscard",
        Action::HJDiscard => "HJDiscard",
        Action::HTDiscard => "HTDiscard",
        Action::H9Discard => "H9Discard",
        Action::DADiscard => "DADiscard",
        Action::DKDiscard => "DKDiscard",
        Action::DQDiscard => "DQDiscard",
        Action::DJDiscard => "DJDiscard",
        Action::DTDiscard => "DTDiscard",
        Action::D9Discard => "D9Discard",
        Action::SADiscard => "SADiscard",
        Action::SKDiscard => "SKDiscard",
        Action::SQDiscard => "SQDiscard",
        Action::SJDiscard => "SJDiscard",
        Action::STDiscard => "STDiscard",
        Action::S9Discard => "S9Discard",
        Action::CADiscard => "CADiscard",
        Action::CKDiscard => "CKDiscard",
        Action::CQDiscard => "CQDiscard",
        Action::CJDiscard => "CJDiscard",
        Action::CTDiscard => "CTDiscard",
        Action::C9Discard => "C9Discard",
        }
    }

    /// Maps a Play or Discard action to the card it names; the six bidding
    /// actions name no card and yield the error that says so.
    pub fn action_to_card(action: Action) -> (r: Result<Card, String>)
        ensures
            match r {
                Ok(c) => spec_action_card(action) == Some(c),
                Err(e) => spec_action_card(action) is None && e@ == no_card_message(action),
            },
    {
        match action {
            Action::Pass | Action::Pick | Action::CallH | Action::CallD | Action::CallS
                | Action::CallC => {
                let mut msg: String = "The action ".to_owned();
                msg.append(action.name());
                msg.append(" has no mapping to a Card");
                Err(msg)
            },
        Action::HAPlay | Action::HADiscard => Ok(Card::new(Suit::Hearts, Rank::Ace)),
        Action::HKPlay | Action::HKDiscard => Ok(Card::new(Suit::Hearts, Rank::King)),
        Action::HQPlay | Action::HQDiscard => Ok(Card::new(Suit::Hearts, Rank::Queen)),
        Action::HJPlay | Action::HJDiscard => Ok(Card::new(Suit::Hearts, Rank::Jack)),
        Action::HTPlay | Action::HTDiscard => Ok(Card::new(Suit::Hearts, Rank::Ten)),
        Action::H9Play | Action::H9Discard => Ok(Card::new(Suit::Hearts, Rank::Nine)),
        Action::DAPlay | Action::DADiscard => Ok(Card::new(Suit::Diamonds, Rank::Ace)),
        Action::DKPlay | Action::DKDiscard => Ok(Card::new(Suit::Diamonds, Rank::King)),
        Action::DQPlay | Action::DQDiscard => Ok(Card::new(Suit::Diamonds, Rank::Queen)),
        Action::DJPlay | Action::DJDiscard => Ok(Card::new(Suit::Diamonds, Rank::Jack)),
        Action::DTPlay | Action::DTDiscard => Ok(Card::new(Suit::Diamonds, Rank::Ten)),
        Action::D9Play | Action::D9Discard => Ok(Card::new(Suit::Diamonds, Rank::Nine)),
        Action::SAPlay | Action::SADiscard => Ok(Card::new(Suit::Spades, Rank::Ace)),
        Action::SKPlay | Action::SKDiscard => Ok(Card::new(Suit::Spades, Rank::King)),
        Action::SQPlay | Action::SQDiscard => Ok(Card::new(Suit::Spades, Rank::Queen)),
        Action::SJPlay | Action::SJDiscard => Ok(Card::new(Suit::Spades, Rank::Jack)),
        Action::STPlay | Action::STDiscard => Ok(Card::new(Suit::Spades, Rank::Ten)),
        Action::S9Play | Action::S9Discard => Ok(Card::new(Suit::Spades, Rank::Nine)),
        Action::CAPlay | Action::CADiscard => Ok(Card::new(Suit::Clubs, Rank::Ace)),
        Action::CKPlay | Action::CKDiscard => Ok(Card::new(Suit::Clubs, Rank::King)),
        Action::CQPlay | Action::CQDiscard => Ok(Card::new(Suit::Clubs, Rank::Queen)),
        Action::CJPlay | Action::CJDiscard => Ok(Card::new(Suit::Clubs, Rank::Jack)),
        Action::CTPlay | Action::CTDiscard => Ok(Card::new(Suit::Clubs, Rank::Ten)),
        Action::C9Play | Action::C9Discard => Ok(Card::new(Suit::Clubs, Rank::Nine)),
        }
    }

    /// Maps a card to its Play action when `is_play` holds, else to its
    /// Discard action; this never fails for a concrete card.
    pub fn card_to_action(card: &Card, is_play: bool) -> (a: Action)
        requires
            concrete_card(*card),
        ensures
            a == spec_card_to_action(*card, is_play),
    {
        if is_play {
            match (card.suit(), card.rank()) {
        (Suit::Hearts, Rank::Ace) => Action::HAPlay,
        (Suit::Hearts, Rank::King) => Action::HKPlay,
        (Suit::Hearts, Rank::Queen) => Action::HQPlay,
        (Suit::Hearts, Rank::Jack) => Action::HJPlay,
        (Suit::Hearts, Rank::Ten) => Action::HTPlay,
        (Suit::Hearts, Rank::Nine) => Action::H9Play,
        (Suit::Diamonds, Rank::Ace) => Action::DAPlay,
        (Suit::Diamonds, Rank::King) => Action::DKPlay,
        (Suit::Diamonds, Rank::Queen) => Action::DQPlay,
        (Suit::Diamonds, Rank::Jack) => Action::DJPlay,
        (Suit::Diamonds, Rank::Ten) => Action::DTPlay,
        (Suit::Diamonds, Rank::Nine) => Action::D9Play,
        (Suit::Spades, Rank::Ace) => Action::SAPlay,
        (Suit::Spades, Rank::King) => Action::SKPlay,
        (Suit::Spades, Rank::Queen) => Action::SQPlay,
        (Suit::Spades, Rank::Jack) => Action::SJPlay,
        (Suit::Spades, Rank::Ten) => Action::STPlay,
        (Suit::Spades, Rank::Nine) => Action::S9Play,
        (Suit::Clubs, Rank::Ace) => Action::CAPlay,
        (Suit::Clubs, Rank::King) => Action::CKPlay,
        (Suit::Clubs, Rank::Queen) => Action::CQPlay,
        (Suit::Clubs, Rank::Jack) => Action::CJPlay,
        (Suit::Clubs, Rank::Ten) => Action::CTPlay,
        (Suit::Clubs, Rank::Nine) => Action::C9Play,
                _ => Action::Pass,
            }
        } else {
            match (card.suit(), card.rank()) {
        (Suit::Hearts, Rank::Ace) => Action::HADiscard,
        (Suit::Hearts, Rank::King) => Action::HKDiscard,
        (Suit::Hearts, Rank::Queen) => Action::HQDiscard,
        (Suit::Hearts, Rank::Jack) => Action::HJDiscard,
        (Suit::Hearts, Rank::Ten) => Action::HTDiscard,
        (Suit::Hearts, Rank::Nine) => Action::H9Discard,
        (Suit::Diamonds, Rank::Ace) => Action::DADiscard,
        (Suit::Diamonds, Rank::King) => Action::DKDiscard,
        (Suit::Diamonds, Rank::Queen) => Action::DQDiscard,
        (Suit::Diamonds, Rank::Jack) => Action::DJDiscard,
        (Suit::Diamonds, Rank::Ten) => Action::DTDiscard,
        (Suit::Diamonds, Rank::Nine) => Action::D9Discard,
        (Suit::Spades, Rank::Ace) => Action::SADiscard,
        (Suit::Spades, Rank::King) => Action::SKDiscard,
        (Suit::Spades, Rank::Queen) => Action::SQDiscard,
        (Suit::Spades, Rank::Jack) => Action::SJDiscard,
        (Suit::Spades, Rank::Ten) => Action::STDiscard,
        (Suit::Spades, Rank::Nine) => Action::S9Discard,
        (Suit::Clubs, Rank::Ace) => Action::CADiscard,
        (Suit::Clubs, Rank::King) => Action::CKDiscard,
        (Suit::Clubs, Rank::Queen) => Action::CQDiscard,
        (Suit::Clubs, Rank::Jack) => Action::CJDiscard,
        (Suit::Clubs, Rank::Ten) => Action::CTDiscard,
        (Suit::Clubs, Rank::Nine) => Action::C9Discard,
                _ => Action::Pass,
            }
        }
    }

    /// The action holding identifier `val`, or the error naming `val` when
    /// no action does (identifiers stop at 53).
    pub fn from_integer(val: u8) -> (r: Result<Action, String>)
        ensures
            match r {
                Ok(a) => val < 54 && a == action_of_id(val as int) && spec_id(a) == val,
                Err(e) => val >= 54 && e@ == no_action_message(val as int),
            },
    {
        if val < 54 {
            Ok(Action::of_index(val))
        } else {
            let mut msg: String = "Integer ".to_owned();
            let digits = u8_decimal(val);
            msg.append(digits.as_str());
            msg.append(" has no corresponding Action.");
            Err(msg)
        }
    }

    /// Parses an action from its name, ignoring ASCII case; text matching
    /// no action's name yields the error that says so.
    pub fn from_name(s: &str) -> (r: Result<Action, String>)
        ensures
            match r {
                Ok(a) => lower_chars(spec_action_name(a)) == lower_chars(s@),
                Err(e) => {
                    &&& forall|n: int|
                        0 <= n < 54 ==> lower_chars(
                            spec_action_name(#[trigger] action_of_id(n)),
                        ) != lower_chars(s@)
                    &&& e@ == no_match_message()
                },
            },
    {
        let mut id: u8 = 0;
        while id < 54
            invariant
                id <= 54,
                forall|n: int|
                    0 <= n < id ==> lower_chars(spec_action_name(#[trigger] action_of_id(n)))
                        != lower_chars(s@),
            decreases 54 - id,
        {
            let act = Action::of_index(id);
            if eq_ignore_case(s, act.name()) {
                return Ok(act);
            }
            id += 1;
        }
        Err("No Action matches the given name".to_owned())
    }
}


/// Round-trip law: for every concrete card and both choices of `is_play`,
/// decoding the encoded action returns the original card; the encoded
/// action always lies in the card-action identifier ranges, Play ids
/// between 6 and 29 and Discard ids 24 above them.
pub proof fn lemma_action_card_round_trip(c: Card, is_play: bool)
    requires
        concrete_card(c),
    ensures
        spec_action_card(spec_card_to_action(c, is_play)) == Some(c),
        is_play ==> 6 <= spec_id(spec_card_to_action(c, is_play)) <= 29,
        !is_play ==> 30 <= spec_id(spec_card_to_action(c, is_play)) <= 53,
        spec_id(spec_card_to_action(c, !is_play)) == spec_id(spec_card_to_action(c, is_play))
            + if is_play {
            24int
        } else {
            -24int
        },
{
}

} // verus!
