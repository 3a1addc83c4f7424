use whist::contractors::ContractorsScore;
use whist::contracts::default_contracts;
use whist::distribution::calculate_players_score;
use whist::error::{GameError, InputError};
use whist::players::{Player, PlayerId, PlayerIdAndScore, Players};
use whist::rules::{select_rules, GameRules};
use whist::scoring::{Score, Tricks};

#[test]
fn game_test_players() {
    let gamemodes = select_rules(GameRules::Dutch);
    let a = Player::new("A".to_string(), 0);
    let b = Player::new("B".to_string(), 1);
    let c = Player::new("C".to_string(), 2);
    let d = Player::new("D".to_string(), 3);
    let mut players = Players::new([a, b, c, d]).unwrap();

    let tricks = 8;

    let score = gamemodes[0].get_score(tricks);

    let contractors = ContractorsScore::Team(
        PlayerIdAndScore::new(players.get_id("A").unwrap(), score),
        PlayerIdAndScore::new(players.get_id("B").unwrap(), score),
    );
    let scores = calculate_players_score(&contractors).unwrap();
    players.update_score(&scores).unwrap();

    assert_eq!(players.list()[0].score, 2);
    assert_eq!(players.list()[1].score, 2);
    assert_eq!(players.list()[2].score, -2);
    assert_eq!(players.list()[3].score, -2);
}

#[test]
fn players_test_players() {
    let contracts = default_contracts();
    let mut players = Players::from_list(&["A", "B", "C", "D"]).unwrap();

    let p_and_t = [
        (PlayerId(0), Tricks::try_from(8).unwrap()),
        (PlayerId(1), Tricks::try_from(8).unwrap()),
    ];
    let scores = contracts[0]
        .gamemode
        .get_each_player_score(&p_and_t)
        .unwrap();
    players.update_score(&scores).unwrap();

    assert_eq!(players.list()[0].score, 2);
    assert_eq!(players.list()[1].score, 2);
    assert_eq!(players.list()[2].score, -2);
    assert_eq!(players.list()[3].score, -2);
}

#[test]
fn test_players() {
    let gamemodes = select_rules(GameRules::Dutch);
    let names = ["A", "B", "C", "D"];
    let mut players = Players::default();
    for name in names {
        players.add_player(name.to_string()).unwrap();
    }
    let tricks = 8;

    let score = gamemodes[0].get_score(tricks);
    let contractors = ContractorsScore::Team(
        PlayerIdAndScore::new(players.get_id("A").unwrap(), score),
        PlayerIdAndScore::new(players.get_id("B").unwrap(), score),
    );
    let scores = calculate_players_score(&contractors).unwrap();
    players.update_score(&scores).unwrap();

    assert_eq!(players.list()[0].score, 2);
    assert_eq!(players.list()[1].score, 2);
    assert_eq!(players.list()[2].score, -2);
    assert_eq!(players.list()[3].score, -2);
}

#[test]
fn players_are_seated_in_the_order_of_their_coming() {
    let names = ["A", "B", "C", "D"];
    let mut players = Players::default();
    for (seat, name) in names.iter().enumerate() {
        assert_eq!(players.add_player(name.to_string()).unwrap(), seat + 1);
    }
    assert_eq!(players.names(), vec!["A", "B", "C", "D"]);
    for (seat, name) in names.iter().enumerate() {
        assert_eq!(players.get_id(name), Some(PlayerId(seat)));
        assert_eq!(players.list()[seat].id, PlayerId(seat));
        assert_eq!(players.list()[seat].id.idx(), seat);
        assert_eq!(players.list()[seat].score, 0);
    }
    assert_eq!(players.get_id("E"), None);
    assert_eq!(players.get_id(""), None);
}

#[test]
fn a_name_is_taken_once() {
    let mut players = Players::default();
    players.add_player("Ann".to_string()).unwrap();
    players.add_player("Bob".to_string()).unwrap();
    let err = players.add_player("Ann".to_string()).unwrap_err();
    assert!(matches!(err, GameError::PlayerAlreadyExists));
    assert_eq!(err.message(), "This player name already exists");
    assert_eq!(players.names(), vec!["Ann", "Bob"]);
    // A name that only starts like one that is taken is free.
    assert_eq!(players.add_player("An".to_string()).unwrap(), 3);
    assert_eq!(players.add_player("Anna".to_string()).unwrap(), 4);
}

#[test]
fn a_table_has_four_players() {
    let mut players = Players::from_list(&["A", "B", "C", "D"]).unwrap();
    let err = players.add_player("E".to_string()).unwrap_err();
    assert!(matches!(err, GameError::TooManyPlayer));
    assert_eq!(err.message(), "Expected 4 players");
    // A full table says so even for a name that is taken.
    let err = players.add_player("A".to_string()).unwrap_err();
    assert!(matches!(err, GameError::TooManyPlayer));
    assert_eq!(players.list().len(), 4);
}

#[test]
fn a_table_of_two_players_of_one_name_fails() {
    assert!(matches!(
        Players::from_list(&["A", "B", "A", "D"]),
        Err(GameError::PlayerAlreadyExists)
    ));
    let doubled = [
        Player::new("A".to_string(), 0),
        Player::new("B".to_string(), 1),
        Player::new("C".to_string(), 2),
        Player::new("C".to_string(), 3),
    ];
    assert!(matches!(
        Players::new(doubled),
        Err(GameError::PlayerAlreadyExists)
    ));
}

#[test]
fn a_table_seats_its_players_by_their_place() {
    let mut first = Player::new("A".to_string(), 3);
    first.score = 7;
    let given = [
        first,
        Player::new("B".to_string(), 2),
        Player::new("C".to_string(), 1),
        Player::new("D".to_string(), 0),
    ];
    let players = Players::new(given).unwrap();
    assert_eq!(players.get_id("A"), Some(PlayerId(0)));
    assert_eq!(players.get_id("D"), Some(PlayerId(3)));
    assert_eq!(players.list()[0].score, 7);
    assert_eq!(players.list()[0].id, PlayerId(0));
    let copy = players.clone();
    assert_eq!(copy.names(), players.names());
    assert_eq!(copy.list()[0].score, 7);
}

#[test]
fn scores_that_do_not_sum_to_zero_change_nothing() {
    let mut players = Players::from_list(&["A", "B", "C", "D"]).unwrap();
    players.update_score(&[4, 2, -3, -3]).unwrap();
    let err = players.update_score(&[4, 2, -3, -2]).unwrap_err();
    assert!(matches!(err, InputError::WrongScore));
    let scores: Vec<i16> = players.list().iter().map(|p| p.score).collect();
    assert_eq!(scores, vec![4, 2, -3, -3]);
    players.update_score(&[-30, 10, 10, 10]).unwrap();
    let scores: Vec<i16> = players.list().iter().map(|p| p.score).collect();
    assert_eq!(scores, vec![-26, 12, 7, 7]);
}

#[test]
fn scores_go_to_the_players_who_are_there() {
    let mut players = Players::default();
    players.add_player("A".to_string()).unwrap();
    players.add_player("B".to_string()).unwrap();
    players.update_score(&[5, -1, -2, -2]).unwrap();
    assert_eq!(players.list()[0].score, 5);
    assert_eq!(players.list()[1].score, -1);
    assert_eq!(players.list().len(), 2);
}

#[test]
fn game_errors_say_what_went_wrong() {
    let from_input = GameError::from(InputError::WrongScore);
    assert!(matches!(
        &from_input,
        GameError::HandBuildError(reason) if reason == "Wrong user input"
    ));
    assert_eq!(
        from_input.message(),
        "Something went wrong while building hand: Wrong user input"
    );
}
