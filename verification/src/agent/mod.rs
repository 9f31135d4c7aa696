//! Decision-making agents: the capability the orchestrating loop invokes
//! once per turn with the current player's scoped view.

use vstd::prelude::*;

use crate::action::Action;
use crate::game::scoped_state::ScopedGameState;

pub mod human;
pub mod random;

verus! {

/// An agent chooses one action per turn from the scoped view it is handed.
/// The supplied legal-action list is never empty at a live state, and the
/// returned action must come from it.
pub trait Agent {
    fn decide_action(&mut self, state: &ScopedGameState) -> (a: Action)
        requires
            state.legal_actions@.len() > 0,
        ensures
            state.legal_actions@.contains(a),
    ;
}

} // verus!
