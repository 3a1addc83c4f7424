//! Misere: the contractors play for no trick at all.

use crate::scoring::{PointsCoefficient, Score};
use vstd::prelude::*;

verus! {

/// The rules of a Misere; its three sizes differ in their points.
#[derive(Clone, Copy, Debug, PartialEq, Eq, Structural)]
pub struct Misere {
    /// Points of the contract.
    pub min_points: i16,
}

impl Misere {
    pub fn new(min_points: i16) -> (rules: Self)
        ensures
            rules == (Misere { min_points }),
    {
        Self { min_points }
    }
}

impl Score for Misere {
    open spec fn min_tricks_spec(&self) -> int {
        0
    }

    open spec fn accepts(&self, tricks: int) -> bool {
        true
    }

    open spec fn points(&self, tricks: int) -> int {
        self.min_points as int
    }

    open spec fn coefficient(&self, tricks: int) -> PointsCoefficient {
        if tricks == 0 {
            PointsCoefficient::One
        } else {
            PointsCoefficient::DoubleNeg
        }
    }

    fn min_tricks(&self) -> (least: i16) {
        0
    }

    fn calculate_score(&self, tricks: i16) -> (r: (i16, PointsCoefficient)) {
        if tricks == 0 {
            return (self.min_points, PointsCoefficient::One);
        }
        (self.min_points, PointsCoefficient::DoubleNeg)
    }
}

} // verus!
