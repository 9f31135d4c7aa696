//! The per-turn view handed to an agent: the acting player's own hand plus
//! everything publicly known, with the freshly computed legal-action list.
//! It is an independent snapshot, never an alias into the game's state.

use vstd::prelude::*;

use crate::action::{Action, FlippedChoice};
use crate::card::{Card, Suit};

verus! {

/// The game state as the current player sees it.
pub struct ScopedGameState {
    pub dealer_actor: u8,
    pub current_actor: u8,
    /// A copy of the current player's hand.
    pub hand: Vec<Card>,
    /// `None` until someone names trump.
    pub calling_actor: Option<u8>,
    /// `None` while the flipped card is still facing up.
    pub flipped_choice: Option<FlippedChoice>,
    pub flipped_card: Card,
    /// `None` until trump is decided.
    pub trump: Option<Suit>,
    /// `None` while trump is being decided or before a trick starts.
    pub led_suit: Option<Suit>,
    /// The seat order of the current trick, starting from its leader.
    pub order: Vec<u8>,
    /// `None` before the first card of a trick is played.
    pub center: Option<Vec<Card>>,
    /// Every card each seat has played this round.
    pub previous_played: Vec<Vec<Card>>,
    /// Always freshly computed; empty only once the game is over.
    pub legal_actions: Vec<Action>,
}

} // verus!
