use whist::gamemodes::params::select_rules;
use whist::gamemodes::{Emballage, GameMode, ModeParams, Seul};
use whist::rules::GameRules;
use whist::scoring::Score;

const TOTAL_TRICKS: i16 = 13;

const EMBALLAGE: ModeParams = ModeParams {
    player_number: 2,
    tricks_to_win: 8,
    min_points: 2,
    points_per_suppl_trick: 1,
    max_tricks_allowed: None,
};

const SEUL: ModeParams = ModeParams {
    player_number: 1,
    tricks_to_win: 6,
    min_points: 6,
    points_per_suppl_trick: 3,
    max_tricks_allowed: Some(8),
};

const MISERE: ModeParams = ModeParams {
    player_number: 1,
    tricks_to_win: 0,
    max_tricks_allowed: Some(1),
    min_points: 12,
    points_per_suppl_trick: -36,
};

const PICOLO: ModeParams = ModeParams {
    player_number: 1,
    tricks_to_win: 1,
    max_tricks_allowed: Some(2),
    min_points: 12,
    points_per_suppl_trick: -36,
};

#[test]
fn emballage_win_case() {
    let tricks = 10;
    let expected_points = 4;

    assert_eq!(expected_points, EMBALLAGE.calculate_points(tricks));
}

#[test]
fn seul_win_case() {
    let tricks = 8;
    let expected_points = 12;

    assert_eq!(expected_points, SEUL.calculate_points(tricks));
}

#[test]
fn emballage_lose_case() {
    let tricks = 6;
    let expected_points = -8;

    assert_eq!(expected_points, EMBALLAGE.calculate_points(tricks));
}

#[test]
fn seul_lose_case() {
    let tricks = 5;
    let expected_points = -18;

    assert_eq!(expected_points, SEUL.calculate_points(tricks));
}

#[test]
fn lib_capot() {
    let tricks = TOTAL_TRICKS;
    let expected_points = 12;

    assert_eq!(expected_points, EMBALLAGE.calculate_points(tricks))
}

#[test]
fn misere() {
    let tricks = 0;
    let expected_points = 12;

    assert_eq!(expected_points, MISERE.calculate_points(tricks));

    let tricks = 1;
    let expected_points = -24;
    assert_eq!(expected_points, MISERE.calculate_points(tricks));

    let tricks = 2;
    let expected_points = -24;
    assert_eq!(expected_points, MISERE.calculate_points(tricks));
}

#[test]
fn a_table_for_picolo_doubles_what_is_under_its_target() {
    // One trick is the target: its points count once.
    assert_eq!(PICOLO.calculate_points(1), 12);
    // Beyond the target the rate is taken off once, whatever the tricks.
    assert_eq!(PICOLO.calculate_points(2), -24);
    assert_eq!(PICOLO.calculate_points(5), -24);
    // Under the target the points, 12 - 36, count twice against the player.
    assert_eq!(PICOLO.calculate_points(0), 48);
}

#[test]
fn params_agree_with_the_gamemodes() {
    let emballage = Emballage::new(8, 2, 1);
    let seul = Seul::new(6, 6, 3, 8);
    for tricks in -2..=15 {
        assert_eq!(
            EMBALLAGE.calculate_points(tricks),
            emballage.get_single_player_score(tricks)
        );
        assert_eq!(SEUL.calculate_points(tricks), seul.get_single_player_score(tricks));
    }
}

#[test]
fn params_of_each_set_of_rules() {
    let dutch = select_rules(GameRules::Dutch);
    assert_eq!(dutch.len(), 2);
    assert_eq!(dutch[0].gamemode, GameMode::Emballage);
    assert_eq!(dutch[0].params, EMBALLAGE);
    assert_eq!(dutch[1].gamemode, GameMode::Seul);
    assert_eq!(dutch[1].params, SEUL);

    let french = select_rules(GameRules::French);
    assert_eq!(french.len(), 2);
    assert_eq!(french[0].gamemode, GameMode::Emballage);
    assert_eq!(french[0].params.points_per_suppl_trick, 2);
    assert_eq!(french[0].params.calculate_points(10), 6);
    assert_eq!(french[1].gamemode, GameMode::Seul);
    assert_eq!(french[1].params.tricks_to_win, 5);
    assert_eq!(french[1].params.max_tricks_allowed, None);
    assert_eq!(french[1].params.calculate_points(13), 54);
}
