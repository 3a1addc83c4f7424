use whist::error::InputError;
use whist::players::PlayerId;
use whist::scoring::{GameResult, InvalidTricks, PointsCoefficient, Score, Tricks, TOTAL_TRICKS};

#[derive(Debug, Clone)]
struct Scorable;

impl Score for Scorable {
    fn min_tricks(&self) -> i16 {
        0
    }

    fn calculate_score(&self, tricks: i16) -> (i16, PointsCoefficient) {
        let coef = match tricks {
            7..13 => PointsCoefficient::One,
            13 => PointsCoefficient::Double,
            0..=6 => PointsCoefficient::DoubleNeg,
            _ => unreachable!(),
        };
        (tricks, coef)
    }
}

fn tricks(count: u8) -> Tricks {
    Tricks::try_from(count).unwrap()
}

#[test]
fn null_sum() {
    let t = [(PlayerId(0), tricks(8)), (PlayerId(1), tricks(8))];
    let scores = Scorable.get_each_player_score(&t).unwrap();
    assert_eq!(scores, [8, 8, -8, -8]);
}

#[test]
fn score_capot() {
    let t = [(PlayerId(0), tricks(13)), (PlayerId(1), tricks(13))];
    let scores = Scorable.get_each_player_score(&t).unwrap();
    assert_eq!(scores, [26, 26, -26, -26]);
}

#[test]
fn fail_to_compute() {
    let t = [(PlayerId(0), tricks(8)), (PlayerId(1), tricks(9))];
    let scores = Scorable.get_each_player_score(&t);
    assert!(scores.is_err());
}

#[test]
fn asymmetric_scores_1() {
    let t = [(PlayerId(0), tricks(9))];
    let scores = Scorable.get_each_player_score(&t).unwrap();
    assert_eq!(scores, [9, -3, -3, -3]);
}

#[test]
fn asymmetric_scores_2() {
    let t = [(PlayerId(0), tricks(6)), (PlayerId(1), tricks(10))];
    let scores = Scorable.get_each_player_score(&t).unwrap();
    assert_eq!(scores, [-12, 10, 1, 1]);
}

#[test]
fn asymmetric_scores_3() {
    let t = [
        (PlayerId(0), tricks(8)),
        (PlayerId(1), tricks(10)),
        (PlayerId(2), tricks(12)),
    ];
    let scores = Scorable.get_each_player_score(&t).unwrap();
    assert_eq!(scores, [8, 10, 12, -30]);
}

#[test]
fn neg_to_pos() {
    let t = [(PlayerId(0), tricks(2)), (PlayerId(1), tricks(4))];
    let scores = Scorable.get_each_player_score(&t).unwrap();
    assert_eq!(scores, [-4, -8, 6, 6]);
}

#[test]
fn disorder() {
    let t = [(PlayerId(2), Tricks::try_from(9).unwrap())];
    let scores = Scorable.get_each_player_score(&t).unwrap();
    assert_eq!(scores, [-3, -3, 9, -3]);
}

#[test]
fn disorder_2() {
    let t = [
        (PlayerId(2), Tricks::try_from(6).unwrap()),
        (PlayerId(1), Tricks::try_from(8).unwrap()),
    ];
    let scores = Scorable.get_each_player_score(&t).unwrap();
    assert_eq!(scores, [2, 8, -12, 2]);
}

#[test]
fn fail_to_compute_is_a_wrong_score() {
    let t = [(PlayerId(0), tricks(8)), (PlayerId(1), tricks(9))];
    let err = Scorable.get_each_player_score(&t).unwrap_err();
    assert!(matches!(err, InputError::WrongScore));
}

#[test]
fn no_known_player_leaves_everyone_at_zero() {
    let scores = Scorable.get_each_player_score(&[]).unwrap();
    assert_eq!(scores, [0, 0, 0, 0]);
}

#[test]
fn each_player_score_sums_to_zero() {
    for first in 0..=13u8 {
        for second in 0..=13u8 {
            let t = [(PlayerId(3), tricks(first)), (PlayerId(1), tricks(second))];
            if let Ok(scores) = Scorable.get_each_player_score(&t) {
                assert_eq!(scores.iter().map(|s| i32::from(*s)).sum::<i32>(), 0);
                assert_eq!(scores[3], Scorable.get_single_player_score(i16::from(first)));
                assert_eq!(scores[1], Scorable.get_single_player_score(i16::from(second)));
                assert_eq!(scores[0], scores[2]);
            }
        }
    }
}

#[test]
fn single_player_score_scales_the_points() {
    assert_eq!(Scorable.get_single_player_score(9), 9);
    assert_eq!(Scorable.get_single_player_score(13), 26);
    assert_eq!(Scorable.get_single_player_score(4), -8);
}

#[test]
fn tricks_are_between_none_and_thirteen() {
    assert_eq!(Tricks::MIN, 0);
    assert_eq!(Tricks::MAX, 13);
    assert_eq!(TOTAL_TRICKS, 13);
    assert_eq!(Tricks::try_from(0).unwrap().value(), 0);
    assert_eq!(Tricks::try_from(13).unwrap().value(), 13);
    assert_eq!(Tricks::try_from(14), Err(InvalidTricks(14)));
    assert_eq!(Tricks::try_from(255), Err(InvalidTricks(255)));
}

#[test]
fn tricks_convert_to_their_count() {
    assert_eq!(*tricks(7), 7);
    assert_eq!(tricks(9).leading_zeros(), 4);
    assert_eq!(i16::from(tricks(7)), 7);
    assert_eq!(i16::from(tricks(13)), 13);
    assert_eq!(i16::from(tricks(0)), 0);
}

#[test]
fn tricks_clamp_to_their_range() {
    assert_eq!(Tricks::clamped(-5).value(), 0);
    assert_eq!(Tricks::clamped(0).value(), 0);
    assert_eq!(Tricks::clamped(6).value(), 6);
    assert_eq!(Tricks::clamped(13).value(), 13);
    assert_eq!(Tricks::clamped(14).value(), 13);
    assert_eq!(Tricks::clamped(i16::MAX).value(), 13);
}

#[test]
fn coefficients_are_one_two_and_minus_two() {
    assert_eq!(PointsCoefficient::One.as_i8(), 1);
    assert_eq!(PointsCoefficient::Double.as_i8(), 2);
    assert_eq!(PointsCoefficient::DoubleNeg.as_i8(), -2);
    assert_eq!(i8::from(PointsCoefficient::DoubleNeg), -2);
    assert_eq!(i16::from(PointsCoefficient::Double), 2);
    assert_eq!(i32::from(PointsCoefficient::One), 1);
    assert_eq!(i64::from(PointsCoefficient::DoubleNeg), -2);
}

#[test]
fn results_and_coefficients_correspond() {
    assert_eq!(GameResult::Win.coefficient(), PointsCoefficient::One);
    assert_eq!(GameResult::Lose.coefficient(), PointsCoefficient::DoubleNeg);
    assert_eq!(GameResult::Capot.coefficient(), PointsCoefficient::Double);
    assert_eq!(PointsCoefficient::One.result(), GameResult::Win);
    assert_eq!(PointsCoefficient::DoubleNeg.result(), GameResult::Lose);
    assert_eq!(PointsCoefficient::Double.result(), GameResult::Capot);
}
