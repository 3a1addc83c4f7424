//! Seul: one player plays alone for a number of tricks.

use crate::gamemodes::{compute_points, points_at};
use crate::scoring::{clamp_int, PointsCoefficient, Score};
use vstd::prelude::*;

verus! {

/// The rules of Seul.
#[derive(Clone, Copy, Debug, PartialEq, Eq, Structural)]
pub struct Seul {
    /// Tricks the contractor needs for the contract.
    pub tricks_to_win: i16,
    /// Points of a contract made exactly.
    pub min_points: i16,
    /// Points for each trick over or under.
    pub points_per_suppl_trick: i16,
    /// Tricks beyond this number count no more.
    pub max_tricks_allowed: i16,
}

impl Seul {
    pub fn new(
        tricks_to_win: i16,
        min_points: i16,
        points_per_suppl_trick: i16,
        max_tricks_allowed: i16,
    ) -> (rules: Self)
        ensures
            rules == (Seul {
                tricks_to_win,
                min_points,
                points_per_suppl_trick,
                max_tricks_allowed,
            }),
    {
        Self { tricks_to_win, min_points, points_per_suppl_trick, max_tricks_allowed }
    }

    /// The tricks that count: `tricks` brought into `0..=max_tricks_allowed`.
    pub open spec fn counted(&self, tricks: int) -> int {
        clamp_int(tricks, 0, self.max_tricks_allowed as int)
    }
}

impl Score for Seul {
    open spec fn min_tricks_spec(&self) -> int {
        self.tricks_to_win as int
    }

    open spec fn accepts(&self, tricks: int) -> bool {
        &&& self.max_tricks_allowed >= 0
        &&& i16::MIN <= self.points(tricks) <= i16::MAX
    }

    open spec fn points(&self, tricks: int) -> int {
        points_at(
            self.min_points as int,
            self.points_per_suppl_trick as int,
            self.counted(tricks) - self.tricks_to_win,
        )
    }

    open spec fn coefficient(&self, tricks: int) -> PointsCoefficient {
        if self.counted(tricks) - self.tricks_to_win >= 0 {
            PointsCoefficient::One
        } else {
            PointsCoefficient::DoubleNeg
        }
    }

    fn min_tricks(&self) -> (least: i16) {
        self.tricks_to_win
    }

    fn calculate_score(&self, tricks: i16) -> (r: (i16, PointsCoefficient)) {
        let counted: i16 = if tricks < 0 {
            0
        } else if tricks > self.max_tricks_allowed {
            self.max_tricks_allowed
        } else {
            tricks
        };
        let delta: i32 = counted as i32 - self.tricks_to_win as i32;
        let points: i64 = compute_points(self.min_points, self.points_per_suppl_trick, delta);
        if delta >= 0 {
            (points as i16, PointsCoefficient::One)
        } else {
            (points as i16, PointsCoefficient::DoubleNeg)
        }
    }
}

} // verus!
