//! Picolo: one player plays for exactly one trick.

use crate::scoring::{PointsCoefficient, Score};
use vstd::prelude::*;

verus! {

/// The rules of Picolo.
#[derive(Clone, Copy, Debug, PartialEq, Eq, Structural)]
pub struct Picolo {
    /// Points of the contract.
    pub min_points: i16,
}

impl Picolo {
    pub fn new(min_points: i16) -> (rules: Self)
        ensures
            rules == (Picolo { min_points }),
    {
        Self { min_points }
    }
}

impl Score for Picolo {
    open spec fn min_tricks_spec(&self) -> int {
        1
    }

    open spec fn accepts(&self, tricks: int) -> bool {
        true
    }

    open spec fn points(&self, tricks: int) -> int {
        self.min_points as int
    }

    open spec fn coefficient(&self, tricks: int) -> PointsCoefficient {
        if tricks == 1 {
            PointsCoefficient::One
        } else {
            PointsCoefficient::DoubleNeg
        }
    }

    fn min_tricks(&self) -> (least: i16) {
        1
    }

    fn calculate_score(&self, tricks: i16) -> (r: (i16, PointsCoefficient)) {
        if tricks == 1 {
            return (self.min_points, PointsCoefficient::One);
        }
        (self.min_points, PointsCoefficient::DoubleNeg)
    }
}

} // verus!
