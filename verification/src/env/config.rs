//! Construction-time configuration of a game run: the four agents, the
//! optional dealer override and seed, and verbosity for front ends.

use vstd::prelude::*;

use crate::agent::Agent;

verus! {

/// What a game run is built from. Exactly four agents play, and a dealer
/// override must name a seat; both are checked at configuration time.
pub struct GameConfig {
    pub agents: Vec<Box<dyn Agent>>,
    pub dealer_id: Option<u8>,
    pub seed: Option<u64>,
    pub verbose: bool,
}

impl GameConfig {
    /// A validated configuration: euchre is played by exactly four
    /// agents, and a dealer override names one of the seats 0 to 3.
    pub fn new(
        agents: Vec<Box<dyn Agent>>,
        dealer_id: Option<u8>,
        seed: Option<u64>,
        verbose: bool,
    ) -> (config: GameConfig)
        requires
            agents@.len() == 4,
            dealer_id matches Some(d) ==> d <= 3,
        ensures
            config.agents@.len() == 4,
            config.dealer_id == dealer_id,
            config.seed == seed,
            config.verbose == verbose,
    {
        GameConfig { agents, dealer_id, seed, verbose }
    }
}

} // verus!
