//! The environment that runs one game to completion: it owns the game and
//! the four agents, invokes each agent in turn with the scoped view, and
//! feeds the chosen action back into the state machine.

use vstd::prelude::*;

use crate::action::Action;
use crate::agent::Agent;
use crate::game::laws::{lemma_legal_actions_nonempty, lemma_step_decreases};
use crate::game::scoped_state::ScopedGameState;
use crate::game::{
    game_measure, init_view, lemma_wf_view, replay_from, scoped_matches, EuchreGame, GameView,
};

pub mod config;

use self::config::GameConfig;

verus! {


/// The actions of a history, with the acting seats dropped.
pub open spec fn actions_of(h: Seq<(u8, Action)>) -> Seq<Action> {
    h.map_values(|r: (u8, Action)| r.1)
}

/// A game together with its agents and the log of actions taken.
pub struct EuchreEnv {
    pub game: EuchreGame,
    pub config: GameConfig,
    pub action_history: Vec<(u8, Action)>,
}

impl EuchreEnv {
    /// An environment for the configured game.
    pub fn new(config: GameConfig) -> (env: EuchreEnv)
        requires
            config.agents@.len() == 4,
            config.dealer_id matches Some(d) ==> d < 4,
        ensures
            env.game.wf(),
            env.config == config,
            env.action_history@ == Seq::<(u8, Action)>::empty(),
            exists|s: u64|
                (config.seed matches Some(given) ==> s == given) && env.game@ == init_view(
                    config.dealer_id,
                    s,
                ),
    {
        let game: EuchreGame = EuchreGame::new(config.dealer_id, config.seed);
        EuchreEnv { game, config, action_history: Vec::new() }
    }

    /// Runs a euchre game from start to finish and returns the points each
    /// seat got at its end: the score vector of the final game state, which
    /// is the fresh game replayed over exactly the actions appended to the
    /// action history during this call.
    pub fn run(&mut self) -> (rewards: Vec<u8>)
        requires
            old(self).config.agents@.len() == 4,
            old(self).config.dealer_id matches Some(d) ==> d < 4,
        ensures
            rewards@.len() == 4,
            final(self).game.wf(),
            final(self).game@.is_over,
            final(self).game@.scores == Some(rewards@),
            final(self).config.dealer_id == old(self).config.dealer_id,
            final(self).config.seed == old(self).config.seed,
            final(self).config.agents@.len() == 4,
            old(self).action_history@.len() <= final(self).action_history@.len(),
            exists|s: u64|
                (old(self).config.seed matches Some(given) ==> s == given) && final(self).game@
                    == replay_from(
                    init_view(old(self).config.dealer_id, s),
                    actions_of(
                        final(self).action_history@.skip(old(self).action_history@.len() as int),
                    ),
                ),
    {
        let ghost base_len: int = self.action_history@.len() as int;
        self.reset();
        let ghost start_view: GameView = self.game@;
        proof {
            assert(actions_of(self.action_history@.skip(base_len)) =~= Seq::<Action>::empty());
            assert(self.game@ == replay_from(
                start_view,
                actions_of(self.action_history@.skip(base_len)),
            ));
        }
        let mut state: ScopedGameState = self.game.get_state();
        let mut curr_player: u8 = self.game.get_curr_player_id();
        proof {
            lemma_wf_view(self.game);
            assert(curr_player < 4);
        }
        while !self.game.is_over()
            invariant
                self.game.wf(),
                scoped_matches(state, self.game@),
                curr_player == self.game@.curr,
                curr_player < 4,
                self.config.agents@.len() == 4,
                self.config.dealer_id == old(self).config.dealer_id,
                self.config.seed == old(self).config.seed,
                0 <= base_len <= self.action_history@.len(),
                self.game@ == replay_from(
                    start_view,
                    actions_of(self.action_history@.skip(base_len)),
                ),
                exists|s: u64|
                    (old(self).config.seed matches Some(given) ==> s == given) && start_view
                        == init_view(old(self).config.dealer_id, s),
            decreases game_measure(self.game@),
        {
            proof {
                lemma_wf_view(self.game);
                lemma_legal_actions_nonempty(self.game@);
            }
            let ci: usize = curr_player as usize;
            let mut agent: Box<dyn Agent> = self.config.agents.remove(ci);
            let act: Action = agent.decide_action(&state);
            let ghost pre_insert = self.config.agents@;
            let ghost boxed = agent;
            self.config.agents.insert(ci, agent);
            proof {
                pre_insert.insert_ensures(ci as int, boxed);
                assert(self.config.agents@.len() == 4);
            }
            let ghost history_before = self.action_history@;
            self.record_action((curr_player, act));
            proof {
                lemma_step_decreases(self.game@, act);
                assert(self.action_history@.skip(base_len) =~= history_before.skip(
                    base_len,
                ).push((curr_player, act)));
                let taken = actions_of(self.action_history@.skip(base_len));
                assert(taken =~= actions_of(history_before.skip(base_len)).push(act));
                assert(taken.drop_last() =~= actions_of(history_before.skip(base_len)));
                assert(taken.last() == act);
            }
            let stepped: (ScopedGameState, u8) = self.game.step(act);
            state = stepped.0;
            curr_player = stepped.1;
            proof {
                lemma_wf_view(self.game);
            }
        }
        match self.game.get_rewards() {
            Some(r) => {
                proof {
                    lemma_wf_view(self.game);
                    assert(r@.len() == 4);
                }
                r
            },
            None => {
                proof {
                    assert(false);
                }
                Vec::new()
            },
        }
    }

    /// Replaces the game with a fresh one, re-using the configuration.
    pub fn reset(&mut self)
        requires
            old(self).config.dealer_id matches Some(d) ==> d < 4,
        ensures
            final(self).game.wf(),
            final(self).config == old(self).config,
            final(self).action_history == old(self).action_history,
            exists|s: u64|
                (old(self).config.seed matches Some(given) ==> s == given) && final(self).game@
                    == init_view(old(self).config.dealer_id, s),
    {
        self.game = EuchreGame::new(self.config.dealer_id, self.config.seed);
    }

    /// A read-only reference to the agent at `index`, absent when the
    /// index names no seat.
    pub fn get_agent(&self, index: usize) -> (a: Option<&Box<dyn Agent>>)
        ensures
            a is Some <==> index < self.config.agents@.len(),
            a matches Some(agent) ==> *agent == self.config.agents@[index as int],
    {
        if index < self.config.agents.len() {
            Some(&self.config.agents[index])
        } else {
            None
        }
    }


    /// A mutable reference to the agent at `index`, absent when the index
    /// names no seat.
    pub fn get_mut_agent(&mut self, index: usize) -> (a: Option<&mut Box<dyn Agent>>)
    {
        if index < self.config.agents.len() {
            Some(&mut self.config.agents[index])
        } else {
            None
        }
    }

    /// Appends the action a player took to the in-memory history.
    fn record_action(&mut self, record: (u8, Action))
        ensures
            final(self).game == old(self).game,
            final(self).config == old(self).config,
            final(self).action_history@ == old(self).action_history@.push(record),
    {
        self.action_history.push(record);
    }
}

} // verus!
