//! Emballage: a team plays for a majority of the tricks.

use crate::gamemodes::{compute_points, points_at};
use crate::scoring::{PointsCoefficient, Score, TOTAL_TRICKS};
use vstd::prelude::*;

verus! {

/// Base points of a majority contract with the target `target`.
///
/// Taking all the tricks on a made contract gives up the rate of one trick:
/// the coefficient doubles the points instead.
pub open spec fn majority_points(target: int, min_points: int, per_extra: int, tricks: int) -> int {
    let delta = tricks - target;
    if tricks == TOTAL_TRICKS && delta >= 0 {
        points_at(min_points, per_extra, delta) - per_extra
    } else {
        points_at(min_points, per_extra, delta)
    }
}

/// Coefficient of a majority contract with the target `target`.
pub open spec fn majority_coefficient(target: int, tricks: int) -> PointsCoefficient {
    if tricks - target < 0 {
        PointsCoefficient::DoubleNeg
    } else if tricks == TOTAL_TRICKS {
        PointsCoefficient::Double
    } else {
        PointsCoefficient::One
    }
}

/// Computes the base points and coefficient of a majority contract.
pub(crate) fn majority_score(target: i16, min_points: i16, per_extra: i16, tricks: i16) -> (r: (
    i16,
    PointsCoefficient,
))
    requires
        i16::MIN <= majority_points(
            target as int,
            min_points as int,
            per_extra as int,
            tricks as int,
        ) <= i16::MAX,
    ensures
        r.0 == majority_points(target as int, min_points as int, per_extra as int, tricks as int),
        r.1 == majority_coefficient(target as int, tricks as int),
{
    let delta: i32 = tricks as i32 - target as i32;
    let points: i64 = compute_points(min_points, per_extra, delta);
    if delta < 0 {
        (points as i16, PointsCoefficient::DoubleNeg)
    } else if tricks == TOTAL_TRICKS {
        ((points - per_extra as i64) as i16, PointsCoefficient::Double)
    } else {
        (points as i16, PointsCoefficient::One)
    }
}

/// The rules of Emballage.
#[derive(Clone, Copy, Debug, PartialEq, Eq, Structural)]
pub struct Emballage {
    /// Tricks the contractors need for the contract.
    pub tricks_to_win: i16,
    /// Points of a contract made exactly.
    pub min_points: i16,
    /// Points for each trick over or under.
    pub points_per_suppl_trick: i16,
}

impl Emballage {
    pub fn new(tricks_to_win: i16, min_points: i16, points_per_suppl_trick: i16) -> (rules: Self)
        ensures
            rules == (Emballage { tricks_to_win, min_points, points_per_suppl_trick }),
    {
        Self { tricks_to_win, min_points, points_per_suppl_trick }
    }
}

impl Score for Emballage {
    open spec fn min_tricks_spec(&self) -> int {
        self.tricks_to_win as int
    }

    open spec fn accepts(&self, tricks: int) -> bool {
        i16::MIN <= self.points(tricks) <= i16::MAX
    }

    open spec fn points(&self, tricks: int) -> int {
        majority_points(
            self.tricks_to_win as int,
            self.min_points as int,
            self.points_per_suppl_trick as int,
            tricks,
        )
    }

    open spec fn coefficient(&self, tricks: int) -> PointsCoefficient {
        majority_coefficient(self.tricks_to_win as int, tricks)
    }

    fn min_tricks(&self) -> (least: i16) {
        self.tricks_to_win
    }

    fn calculate_score(&self, tricks: i16) -> (r: (i16, PointsCoefficient)) {
        majority_score(self.tricks_to_win, self.min_points, self.points_per_suppl_trick, tricks)
    }
}

/// Emballage played at a bid: the bid takes the place of the tricks to win.
#[derive(Clone, Copy, Debug, PartialEq, Eq, Structural)]
pub struct EmballageHand {
    /// Tricks the contractors said they would take.
    pub bid: i16,
    pub rules: Emballage,
}

impl EmballageHand {
    pub fn new(bid: i16, rules: Emballage) -> (hand: Self)
        ensures
            hand == (EmballageHand { bid, rules }),
    {
        Self { bid, rules }
    }
}

impl Score for EmballageHand {
    open spec fn min_tricks_spec(&self) -> int {
        self.bid as int
    }

    open spec fn accepts(&self, tricks: int) -> bool {
        i16::MIN <= self.points(tricks) <= i16::MAX
    }

    open spec fn points(&self, tricks: int) -> int {
        majority_points(
            self.bid as int,
            self.rules.min_points as int,
            self.rules.points_per_suppl_trick as int,
            tricks,
        )
    }

    open spec fn coefficient(&self, tricks: int) -> PointsCoefficient {
        majority_coefficient(self.bid as int, tricks)
    }

    fn min_tricks(&self) -> (least: i16) {
        self.bid
    }

    fn calculate_score(&self, tricks: i16) -> (r: (i16, PointsCoefficient)) {
        majority_score(self.bid, self.rules.min_points, self.rules.points_per_suppl_trick, tricks)
    }
}

/// A contract made exactly, short of all the tricks, gives `min_points` once.
pub proof fn lemma_emballage_made_exactly(rules: Emballage)
    requires
        rules.tricks_to_win != TOTAL_TRICKS,
    ensures
        rules.points(rules.tricks_to_win as int) == rules.min_points,
        rules.coefficient(rules.tricks_to_win as int) == PointsCoefficient::One,
{
    let rate = rules.points_per_suppl_trick as int;
    assert(0 * rate == 0) by (nonlinear_arith);
}

/// A contract made with all the tricks gives the points of its distance from
/// the target less the rate of one trick, and they count twice.
pub proof fn lemma_emballage_capot(rules: Emballage)
    requires
        rules.tricks_to_win <= TOTAL_TRICKS,
    ensures
        rules.points(TOTAL_TRICKS as int) == rules.min_points + (TOTAL_TRICKS
            - rules.tricks_to_win) * rules.points_per_suppl_trick - rules.points_per_suppl_trick,
        rules.coefficient(TOTAL_TRICKS as int) == PointsCoefficient::Double,
{
}

} // verus!
