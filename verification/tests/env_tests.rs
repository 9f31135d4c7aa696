use euchre_rs::agent::random::RandomAgent;
use euchre_rs::agent::Agent;
use euchre_rs::env::config::GameConfig;
use euchre_rs::env::EuchreEnv;

#[test]
fn env_run_game() {
    let players: Vec<Box<dyn Agent>> = vec![
        Box::new(RandomAgent::new(None)),
        Box::new(RandomAgent::new(None)),
        Box::new(RandomAgent::new(None)),
        Box::new(RandomAgent::new(None)),
    ];
    let config: GameConfig = GameConfig::new(players, None, None, false);
    let mut env: EuchreEnv = EuchreEnv::new(config);
    let rewards: Vec<u8> = env.run();
    println!("{:?}", rewards);
    assert!(4 == rewards.len())
}

#[test]
fn mod_run_game() {
    let players: Vec<Box<dyn Agent>> = vec![
        Box::new(RandomAgent::new(Some(3))),
        Box::new(RandomAgent::new(Some(5))),
        Box::new(RandomAgent::new(Some(7))),
        Box::new(RandomAgent::new(Some(9))),
    ];
    let config: GameConfig = GameConfig::new(players, None, None, false);
    let mut env: EuchreEnv = EuchreEnv::new(config);
    let rewards: Vec<u8> = env.run();
    println!("{:?}", rewards);
    assert!(4 == rewards.len())
}

#[test]
fn seeded_envs_agree() {
    // the same seed, dealer override and seeded agents give the same score
    let mut results: Vec<Vec<u8>> = Vec::new();
    for _ in 0..2 {
        let players: Vec<Box<dyn Agent>> = vec![
            Box::new(RandomAgent::new(Some(42))),
            Box::new(RandomAgent::new(Some(42))),
            Box::new(RandomAgent::new(Some(42))),
            Box::new(RandomAgent::new(Some(42))),
        ];
        let config: GameConfig = GameConfig::new(players, Some(1), Some(12), false);
        let mut env: EuchreEnv = EuchreEnv::new(config);
        results.push(env.run());
    }
    assert_eq!(results[0], results[1]);
}

#[test]
fn env_reset_replaces_the_game() {
    let players: Vec<Box<dyn Agent>> = vec![
        Box::new(RandomAgent::new(Some(1))),
        Box::new(RandomAgent::new(Some(2))),
        Box::new(RandomAgent::new(Some(3))),
        Box::new(RandomAgent::new(Some(4))),
    ];
    let config: GameConfig = GameConfig::new(players, Some(0), Some(8), false);
    let mut env: EuchreEnv = EuchreEnv::new(config);
    env.run();
    assert!(env.game.is_over());
    env.reset();
    assert!(!env.game.is_over());
}
