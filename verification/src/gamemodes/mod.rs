//! The gamemodes and their point formulas.
//!
//! Every formula starts from the distance between the tricks taken and a
//! target: the base points are `min_points` plus a rate for each trick of
//! that distance, and the side of the target decides the coefficient.

pub mod emballage;
pub mod misere;
pub mod params;
pub mod picolo;
pub mod seul;

use crate::scoring::{PointsCoefficient, Score};
use vstd::prelude::*;

pub use emballage::{Emballage, EmballageHand};
pub use misere::Misere;
pub use params::{GameMode, GameSet, ModeParams};
pub use picolo::Picolo;
pub use seul::Seul;

verus! {

/// Distance of `delta` from zero.
pub open spec fn distance(delta: int) -> int {
    if delta >= 0 {
        delta
    } else {
        -delta
    }
}

/// Base points at `delta` tricks from the target: `min_points`, and
/// `per_extra` for each trick over or under.
pub open spec fn points_at(min_points: int, per_extra: int, delta: int) -> int {
    min_points + distance(delta) * per_extra
}

/// Computes [`points_at`] for a distance between two trick counts.
pub(crate) fn compute_points(min_points: i16, per_extra: i16, delta: i32) -> (points: i64)
    requires
        -0x1_0000 < delta < 0x1_0000,
    ensures
        points == points_at(min_points as int, per_extra as int, delta as int),
        -0x1_0000_0000 < points < 0x1_0000_0000,
{
    let extra: i64 = if delta >= 0 {
        delta as i64
    } else {
        -(delta as i64)
    };
    let rate: i64 = per_extra as i64;
    assert(-0x1_0000 * 0x8000 <= extra * rate <= 0x1_0000 * 0x8000) by (nonlinear_arith)
        requires
            0 <= extra < 0x1_0000,
            -0x8000 <= rate < 0x8000,
    ;
    min_points as i64 + extra * rate
}

/// The gamemodes of the game, one variant for each formula and name.
#[derive(Clone, Copy, Debug, PartialEq, Eq, Structural)]
pub enum Gamemodes {
    Emballage(Emballage),
    Seul(Seul),
    Picolo(Picolo),
    PetiteMisere(Misere),
    GrandeMisere(Misere),
    GrandeMisereSurTrou(Misere),
}

impl Gamemodes {
    /// The name under which the gamemode is shown.
    pub open spec fn name_spec(&self) -> Seq<char> {
        match self {
            Gamemodes::Emballage(_) => "Emballage"@,
            Gamemodes::Seul(_) => "Seul"@,
            Gamemodes::Picolo(_) => "Picolo"@,
            Gamemodes::PetiteMisere(_) => "Petite Misere"@,
            Gamemodes::GrandeMisere(_) => "Grande Misere"@,
            Gamemodes::GrandeMisereSurTrou(_) => "Grande Misere sur trou"@,
        }
    }

    /// Whether the players bid in this gamemode.
    pub open spec fn supports_bidding(&self) -> bool {
        self is Emballage || self is Seul
    }

    /// The name under which the gamemode is shown.
    pub fn name(&self) -> (name: &'static str)
        ensures
            name@ == self.name_spec(),
    {
        match self {
            Gamemodes::Emballage(_) => "Emballage",
            Gamemodes::Seul(_) => "Seul",
            Gamemodes::Picolo(_) => "Picolo",
            Gamemodes::PetiteMisere(_) => "Petite Misere",
            Gamemodes::GrandeMisere(_) => "Grande Misere",
            Gamemodes::GrandeMisereSurTrou(_) => "Grande Misere sur trou",
        }
    }
}

impl Score for Gamemodes {
    open spec fn min_tricks_spec(&self) -> int {
        match self {
            Gamemodes::Emballage(mode) => mode.min_tricks_spec(),
            Gamemodes::Seul(mode) => mode.min_tricks_spec(),
            Gamemodes::Picolo(mode) => mode.min_tricks_spec(),
            Gamemodes::PetiteMisere(mode) => mode.min_tricks_spec(),
            Gamemodes::GrandeMisere(mode) => mode.min_tricks_spec(),
            Gamemodes::GrandeMisereSurTrou(mode) => mode.min_tricks_spec(),
        }
    }

    open spec fn accepts(&self, tricks: int) -> bool {
        match self {
            Gamemodes::Emballage(mode) => mode.accepts(tricks),
            Gamemodes::Seul(mode) => mode.accepts(tricks),
            Gamemodes::Picolo(mode) => mode.accepts(tricks),
            Gamemodes::PetiteMisere(mode) => mode.accepts(tricks),
            Gamemodes::GrandeMisere(mode) => mode.accepts(tricks),
            Gamemodes::GrandeMisereSurTrou(mode) => mode.accepts(tricks),
        }
    }

    open spec fn points(&self, tricks: int) -> int {
        match self {
            Gamemodes::Emballage(mode) => mode.points(tricks),
            Gamemodes::Seul(mode) => mode.points(tricks),
            Gamemodes::Picolo(mode) => mode.points(tricks),
            Gamemodes::PetiteMisere(mode) => mode.points(tricks),
            Gamemodes::GrandeMisere(mode) => mode.points(tricks),
            Gamemodes::GrandeMisereSurTrou(mode) => mode.points(tricks),
        }
    }

    open spec fn coefficient(&self, tricks: int) -> PointsCoefficient {
        match self {
            Gamemodes::Emballage(mode) => mode.coefficient(tricks),
            Gamemodes::Seul(mode) => mode.coefficient(tricks),
            Gamemodes::Picolo(mode) => mode.coefficient(tricks),
            Gamemodes::PetiteMisere(mode) => mode.coefficient(tricks),
            Gamemodes::GrandeMisere(mode) => mode.coefficient(tricks),
            Gamemodes::GrandeMisereSurTrou(mode) => mode.coefficient(tricks),
        }
    }

    fn min_tricks(&self) -> (least: i16) {
        match self {
            Gamemodes::Emballage(mode) => mode.min_tricks(),
            Gamemodes::Seul(mode) => mode.min_tricks(),
            Gamemodes::Picolo(mode) => mode.min_tricks(),
            Gamemodes::PetiteMisere(mode) => mode.min_tricks(),
            Gamemodes::GrandeMisere(mode) => mode.min_tricks(),
            Gamemodes::GrandeMisereSurTrou(mode) => mode.min_tricks(),
        }
    }

    fn calculate_score(&self, tricks: i16) -> (r: (i16, PointsCoefficient)) {
        match self {
            Gamemodes::Emballage(mode) => mode.calculate_score(tricks),
            Gamemodes::Seul(mode) => mode.calculate_score(tricks),
            Gamemodes::Picolo(mode) => mode.calculate_score(tricks),
            Gamemodes::PetiteMisere(mode) => mode.calculate_score(tricks),
            Gamemodes::GrandeMisere(mode) => mode.calculate_score(tricks),
            Gamemodes::GrandeMisereSurTrou(mode) => mode.calculate_score(tricks),
        }
    }
}

} // verus!
