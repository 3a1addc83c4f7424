use whist::contractors::ContractorsScore;
use whist::distribution::{calculate_players_score, distribute_scores, divide_exactly};
use whist::error::InputError;
use whist::players::{PlayerId, PlayerIdAndScore};

fn scored(seat: usize, score: i16) -> PlayerIdAndScore {
    PlayerIdAndScore::new(PlayerId(seat), score)
}

#[test]
fn team_scores_are_shared_out() {
    let team = ContractorsScore::Team(scored(0, 4), scored(1, 2));
    assert_eq!(calculate_players_score(&team).unwrap(), [4, 2, -3, -3]);
}

#[test]
fn team_scores_of_an_odd_sum_fail() {
    let team = ContractorsScore::Team(scored(0, 3), scored(1, 2));
    assert!(matches!(calculate_players_score(&team), Err(InputError::WrongScore)));
}

#[test]
fn team_of_one_seat_twice_fails() {
    let team = ContractorsScore::Team(scored(2, 4), scored(2, 2));
    assert!(matches!(calculate_players_score(&team), Err(InputError::InvalidInput(_))));
    let team = ContractorsScore::Team(scored(2, 3), scored(2, 2));
    assert!(matches!(calculate_players_score(&team), Err(InputError::InvalidInput(_))));
    let other = ContractorsScore::Other(vec![scored(1, 4), scored(1, 2)]);
    assert!(matches!(calculate_players_score(&other), Err(InputError::InvalidInput(_))));
}

#[test]
fn solo_score_is_shared_out() {
    let solo = ContractorsScore::Solo(scored(2, 12));
    assert_eq!(calculate_players_score(&solo).unwrap(), [-4, -4, 12, -4]);
    let solo = ContractorsScore::Solo(scored(0, -30));
    assert_eq!(calculate_players_score(&solo).unwrap(), [-30, 10, 10, 10]);
}

#[test]
fn solo_score_not_in_thirds_fails() {
    let solo = ContractorsScore::Solo(scored(0, 5));
    assert!(matches!(calculate_players_score(&solo), Err(InputError::WrongScore)));
    let solo = ContractorsScore::Solo(scored(0, -5));
    assert!(matches!(calculate_players_score(&solo), Err(InputError::WrongScore)));
}

#[test]
fn other_of_one_or_two_is_a_solo_or_a_team() {
    let one = ContractorsScore::Other(vec![scored(3, -24)]);
    assert_eq!(calculate_players_score(&one).unwrap(), [8, 8, 8, -24]);
    let one = ContractorsScore::Other(vec![scored(3, -25)]);
    assert!(matches!(calculate_players_score(&one), Err(InputError::WrongScore)));
    let two = ContractorsScore::Other(vec![scored(3, 12), scored(0, -24)]);
    assert_eq!(calculate_players_score(&two).unwrap(), [-24, 6, 6, 12]);
    let two = ContractorsScore::Other(vec![scored(3, 12), scored(0, -23)]);
    assert!(matches!(calculate_players_score(&two), Err(InputError::WrongScore)));
}

#[test]
fn other_of_three_leaves_the_rest_to_the_fourth() {
    let three = ContractorsScore::Other(vec![scored(3, 12), scored(0, -24), scored(1, 5)]);
    assert_eq!(calculate_players_score(&three).unwrap(), [-24, 5, 7, 12]);
    let three = ContractorsScore::Other(vec![scored(1, 1), scored(2, 1), scored(3, 1)]);
    assert_eq!(calculate_players_score(&three).unwrap(), [-3, 1, 1, 1]);
}

#[test]
fn other_of_none_or_four_fails() {
    let none = ContractorsScore::Other(vec![]);
    assert!(matches!(calculate_players_score(&none), Err(InputError::WrongScore)));
    let four = ContractorsScore::Other(vec![
        scored(0, 1),
        scored(1, 1),
        scored(2, -1),
        scored(3, -1),
    ]);
    assert!(matches!(calculate_players_score(&four), Err(InputError::WrongScore)));
}

#[test]
fn players_score_sums_to_zero() {
    for first in -20..=20i16 {
        for second in -20..=20i16 {
            let team = ContractorsScore::Team(scored(1, first), scored(3, second));
            match calculate_players_score(&team) {
                Ok(scores) => {
                    assert_eq!((first + second) % 2, 0);
                    assert_eq!(scores.iter().sum::<i16>(), 0);
                    assert_eq!(scores[1], first);
                    assert_eq!(scores[3], second);
                    assert_eq!(scores[0], scores[2]);
                }
                Err(_) => assert_ne!((first + second) % 2, 0),
            }
        }
    }
}

#[test]
fn distribute_places_then_shares() {
    assert_eq!(distribute_scores(&[]).unwrap(), [0, 0, 0, 0]);
    assert_eq!(distribute_scores(&[scored(1, 9)]).unwrap(), [-3, 9, -3, -3]);
    assert_eq!(
        distribute_scores(&[scored(2, -12), scored(1, 8)]).unwrap(),
        [2, 8, -12, 2]
    );
    assert_eq!(
        distribute_scores(&[scored(0, 8), scored(1, 10), scored(2, 12)]).unwrap(),
        [8, 10, 12, -30]
    );
    assert!(matches!(
        distribute_scores(&[scored(0, 8), scored(1, 9)]),
        Err(InputError::WrongScore)
    ));
}

#[test]
fn distribute_writes_a_later_entry_over_an_earlier_one() {
    // Seat 0 is named twice: its last score stays, and three players share
    // what it lacks to zero in two shares.
    assert_eq!(
        distribute_scores(&[scored(0, 5), scored(0, 2)]).unwrap(),
        [2, -1, -1, -1]
    );
}

#[test]
fn divide_exactly_divides_or_declines() {
    assert_eq!(divide_exactly(12, 3), Some(4));
    assert_eq!(divide_exactly(-12, 3), Some(-4));
    assert_eq!(divide_exactly(0, 4), Some(0));
    assert_eq!(divide_exactly(-7, 1), Some(-7));
    assert_eq!(divide_exactly(7, 2), None);
    assert_eq!(divide_exactly(-7, 2), None);
    assert_eq!(divide_exactly(-1, 4), None);
}

#[test]
fn input_errors_say_what_went_wrong() {
    assert_eq!(InputError::WrongScore.message(), "The score sum cannot be zero");
    assert_eq!(
        InputError::InvalidInput("no such player".to_string()).message(),
        "invalid input: no such player"
    );
    let team = ContractorsScore::Team(scored(2, 4), scored(2, 2));
    assert_eq!(
        calculate_players_score(&team).unwrap_err().message(),
        "invalid input: A team needs two different players"
    );
}
