use euchre_rs::action::Action;
use euchre_rs::game::{determine_dealer, EuchreGame, GamePhase};
use rand::seq::IteratorRandom;
use rand::thread_rng;

#[test]
fn create_game() {
    let game: EuchreGame = EuchreGame::new(Some(0), Some(10));

    assert!(!game.is_over())
}

#[test]
fn get_dealer_valid_dealer() {
    assert_eq!(2, determine_dealer(Some(2), 10));
    assert!(determine_dealer(None, 10) < 4);
}

#[test]
fn random_playthrough() {
    let mut game: EuchreGame = EuchreGame::new(Some(0), Some(10));

    while !game.is_over() {
        let action = game.get_legal_actions()[0];
        let (_state, _player_id) = game.step(action);
    }
    assert!(game.get_rewards().unwrap().len() == 4);
}

#[test]
fn rdm_100_games() {
    for i in 0..100 {
        let mut game: EuchreGame = EuchreGame::new(Some(0), Some(i));

        while !game.is_over() {
            let options: Vec<Action> = game.get_legal_actions();
            let action = match options.into_iter().choose(&mut thread_rng()) {
                Some(i) => i,
                None => {
                    println!("{:?}", game.get_state().legal_actions);
                    return;
                }
            };
            let (_state, _player_id) = game.step(action);
        }
        assert!(game.get_rewards().unwrap().len() == 4);
    }
}

#[test]
fn legal_actions_never_empty_while_live() {
    for seed in 0..20 {
        let mut game: EuchreGame = EuchreGame::new(Some(1), Some(seed));
        while !game.is_over() {
            let options: Vec<Action> = game.get_legal_actions();
            assert!(!options.is_empty());
            game.step(options[0]);
        }
    }
}

#[test]
fn follow_suit_is_enforced() {
    // whenever a suit is led and the hand can follow with the led
    // effective suit, every offered play matches it; otherwise the whole
    // hand is offered
    for seed in 0..20 {
        let mut game: EuchreGame = EuchreGame::new(Some(2), Some(seed));
        let mut state = game.get_state();
        while !game.is_over() {
            if let (Some(trump), Some(led)) = (state.trump, state.led_suit) {
                if state.hand.len() < 6 {
                    let followers: Vec<_> = state
                        .hand
                        .iter()
                        .filter(|c| c.eff_suit(trump) == led)
                        .collect();
                    if followers.is_empty() {
                        assert_eq!(state.legal_actions.len(), state.hand.len());
                    } else {
                        for act in &state.legal_actions {
                            let card = Action::action_to_card(*act).unwrap();
                            assert_eq!(card.eff_suit(trump), led);
                        }
                    }
                }
            }
            let action = state.legal_actions[0];
            let (next_state, _player) = game.step(action);
            state = next_state;
        }
    }
}

#[test]
fn round_ends_after_twenty_plays() {
    // each of the 5 tricks takes 4 played cards: the game is over exactly
    // when the 20th play action lands
    let mut game: EuchreGame = EuchreGame::new(Some(3), Some(77));
    let mut plays: u32 = 0;
    while !game.is_over() {
        let action = game.get_legal_actions()[0];
        let id: u8 = action.id();
        if (6..=29).contains(&id) {
            plays += 1;
        }
        game.step(action);
        if plays < 20 {
            assert!(!game.is_over());
        }
    }
    assert_eq!(20, plays);
    assert!(game.get_rewards().is_some());
}

#[test]
fn scores_absent_before_the_end() {
    let game: EuchreGame = EuchreGame::new(Some(0), Some(5));
    assert!(game.get_rewards().is_none());
}

#[test]
fn identical_seeds_replay_identically() {
    // two games with the same seed and dealer override, fed the same
    // actions, pass through identical scoped states and scores
    let mut first: EuchreGame = EuchreGame::new(Some(1), Some(12));
    let mut second: EuchreGame = EuchreGame::new(Some(1), Some(12));
    while !first.is_over() {
        let options = first.get_legal_actions();
        assert_eq!(options, second.get_legal_actions());
        let action = options[0];
        let (s1, p1) = first.step(action);
        let (s2, p2) = second.step(action);
        assert_eq!(p1, p2);
        assert_eq!(s1.hand, s2.hand);
        assert_eq!(s1.trump, s2.trump);
        assert_eq!(s1.led_suit, s2.led_suit);
        assert_eq!(s1.center, s2.center);
        assert_eq!(s1.order, s2.order);
        assert_eq!(s1.legal_actions, s2.legal_actions);
        assert_eq!(s1.previous_played, s2.previous_played);
    }
    assert!(second.is_over());
    assert_eq!(first.get_rewards().unwrap(), second.get_rewards().unwrap());
}

#[test]
fn phase_tracks_the_round() {
    let mut game: EuchreGame = EuchreGame::new(Some(0), Some(10));
    assert_eq!(GamePhase::ChoosingTrumpFlipAvailable, game.phase());
    game.step(Action::Pick);
    assert_eq!(GamePhase::Discarding, game.phase());
    let discard = game.get_legal_actions()[0];
    game.step(discard);
    assert_eq!(GamePhase::Leading, game.phase());
    let lead = game.get_legal_actions()[0];
    game.step(lead);
    assert_eq!(GamePhase::Following, game.phase());
    while !game.is_over() {
        let action = game.get_legal_actions()[0];
        game.step(action);
    }
    assert_eq!(GamePhase::Over, game.phase());
}
