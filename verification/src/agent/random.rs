//! An agent that picks uniformly among the legal actions, driven by its
//! own seeded generator.

use vstd::prelude::*;

use crate::action::Action;
use crate::agent::Agent;
use crate::game::scoped_state::ScopedGameState;
use crate::utils;
use rand_chacha::ChaCha8Rng;

verus! {

/// Chooses a random legal action each turn.
pub struct RandomAgent {
    gen: ChaCha8Rng,
}

impl Agent for RandomAgent {
    fn decide_action(&mut self, state: &ScopedGameState) -> (a: Action)
    {
        let i: usize = utils::draw_index(&mut self.gen, state.legal_actions.len());
        state.legal_actions[i]
    }
}

impl RandomAgent {
    /// An agent drawing from the given seed, or from system entropy when
    /// no seed is given.
    pub fn new(seed: Option<u64>) -> Self {
        Self { gen: utils::get_rdm_gen(seed) }
    }
}

} // verus!
