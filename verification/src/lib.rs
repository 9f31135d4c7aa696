//! A verified rules engine for the card game Euchre: dealing, bidding,
//! trick play and scoring, together with the compact action encoding that
//! agents use to drive a game.

use vstd::prelude::*;

pub mod action;
pub mod agent;
pub mod card;
pub mod deck;
pub mod env;
pub mod game;
pub mod judger;
pub mod dealer;
pub mod player;
pub mod utils;

verus! {

/// Sum of two machine words, as the crate's smoke-test entry point.
pub fn add(left: usize, right: usize) -> (r: usize)
    requires
        left + right <= usize::MAX,
    ensures
        r == left + right,
{
    left + right
}

} // verus!
