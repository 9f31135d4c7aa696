use euchre_rs::player::Player;

#[test]
fn make_player() {
    let play: Player = Player::new(2);
    let real_id: u8 = 2;
    assert_eq!(play.player_id, real_id)
}

#[test]
fn award_trick() {
    let mut play: Player = Player::new(2);
    play.award_trick();
    assert_eq!(1, play.tricks);
}

#[test]
fn get_tricks_won() {
    let mut play: Player = Player::new(3);
    assert_eq!(play.get_tricks(), 0);
    play.tricks = 10;
    assert_eq!(play.get_tricks(), 10);
}

#[test]
fn get_id() {
    let play: Player = Player::new(3);
    assert_eq!(play.get_id(), 3);
}

#[test]
fn it_works() {
    let result = euchre_rs::add(2, 2);
    assert_eq!(result, 4);
}
