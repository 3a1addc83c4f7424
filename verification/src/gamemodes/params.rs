//! A gamemode as a table of parameters, with one formula for all of them.

use crate::gamemodes::{compute_points, points_at, Emballage, Seul};
use crate::rules::GameRules;
use crate::scoring::{clamp_int, Score, TOTAL_TRICKS};
use vstd::prelude::*;

verus! {

/// The gamemodes that a table of parameters can describe.
#[derive(Clone, Copy, Debug, PartialEq, Eq, Structural)]
pub enum GameMode {
    Emballage,
    Seul,
    Misere,
}

/// The parameters of a gamemode.
#[derive(Clone, Copy, Debug, PartialEq, Eq, Structural)]
pub struct ModeParams {
    /// Number of contractors.
    pub player_number: usize,
    /// Tricks the contractors need for the contract.
    pub tricks_to_win: i16,
    /// Tricks beyond this number count no more; without it, all the tricks
    /// double the points.
    pub max_tricks_allowed: Option<i16>,
    /// Points of a contract made exactly.
    pub min_points: i16,
    /// Points for each trick over or under.
    pub points_per_suppl_trick: i16,
}

/// A gamemode with its parameters.
#[derive(Clone, Copy, Debug, PartialEq, Eq, Structural)]
pub struct GameSet {
    pub gamemode: GameMode,
    pub params: ModeParams,
}

impl ModeParams {
    /// The tricks that count: brought into `0..=max` where there is a `max`.
    pub open spec fn counted(&self, tricks: int) -> int {
        match self.max_tricks_allowed {
            Some(max) => clamp_int(tricks, 0, max as int),
            None => tricks,
        }
    }

    /// Whether all the tricks were taken in a mode that rewards it.
    pub open spec fn doubles(&self, tricks: int) -> bool {
        self.max_tricks_allowed is None && tricks == TOTAL_TRICKS
    }

    /// The score of one contractor who took `tricks`.
    pub open spec fn points(&self, tricks: int) -> int {
        let delta = self.counted(tricks) - self.tricks_to_win;
        let points = points_at(
            self.min_points as int,
            self.points_per_suppl_trick as int,
            delta,
        );
        if delta < 0 {
            -2 * points
        } else if self.doubles(tricks) {
            2 * (points - self.points_per_suppl_trick)
        } else {
            points
        }
    }

    /// Whether the score at `tricks` can be computed within `i16`.
    pub open spec fn accepts(&self, tricks: int) -> bool {
        &&& self.max_tricks_allowed matches Some(max) ==> max >= 0
        &&& i16::MIN <= self.points(tricks) <= i16::MAX
    }

    /// The score of one contractor who took `tricks`. Takes the tricks at
    /// which an `i16` can hold it, under a limit that is not negative.
    pub fn calculate_points(&self, tricks: i16) -> (score: i16)
        requires
            self.accepts(tricks as int),
        ensures
            score == self.points(tricks as int),
    {
        let mut double_points = false;
        let mut counted: i16 = tricks;
        if let Some(max_tricks) = self.max_tricks_allowed {
            if tricks < 0 {
                counted = 0;
            } else if tricks > max_tricks {
                counted = max_tricks;
            }
        } else if tricks == TOTAL_TRICKS {
            double_points = true;
        }
        let suppl_tricks: i32 = counted as i32 - self.tricks_to_win as i32;
        let points: i64 = compute_points(
            self.min_points,
            self.points_per_suppl_trick,
            suppl_tricks,
        );
        if suppl_tricks < 0 {
            (-2 * points) as i16
        } else if double_points {
            (2 * (points - self.points_per_suppl_trick as i64)) as i16
        } else {
            points as i16
        }
    }
}

/// A table without a limit on the tricks scores as Emballage does.
pub proof fn lemma_params_score_as_emballage(params: ModeParams, tricks: int)
    requires
        params.max_tricks_allowed is None,
    ensures
        ({
            let rules = Emballage {
                tricks_to_win: params.tricks_to_win,
                min_points: params.min_points,
                points_per_suppl_trick: params.points_per_suppl_trick,
            };
            params.points(tricks) == rules.coefficient(tricks).apply(rules.points(tricks))
        }),
{
}

/// A table with a limit on the tricks scores as Seul does.
pub proof fn lemma_params_score_as_seul(params: ModeParams, tricks: int)
    requires
        params.max_tricks_allowed is Some,
    ensures
        ({
            let rules = Seul {
                tricks_to_win: params.tricks_to_win,
                min_points: params.min_points,
                points_per_suppl_trick: params.points_per_suppl_trick,
                max_tricks_allowed: params.max_tricks_allowed->Some_0,
            };
            params.points(tricks) == rules.coefficient(tricks).apply(rules.points(tricks))
        }),
{
}

/// The tables of `rules`: Emballage for two and Seul for one, with the rates
/// and limits of the rules.
pub open spec fn tables(rules: GameRules) -> Seq<GameSet> {
    match rules {
        GameRules::Dutch => seq![
            GameSet {
                gamemode: GameMode::Emballage,
                params: ModeParams {
                    player_number: 2,
                    tricks_to_win: 8,
                    min_points: 2,
                    points_per_suppl_trick: 1,
                    max_tricks_allowed: None,
                },
            },
            GameSet {
                gamemode: GameMode::Seul,
                params: ModeParams {
                    player_number: 1,
                    tricks_to_win: 6,
                    min_points: 6,
                    points_per_suppl_trick: 3,
                    max_tricks_allowed: Some(8i16),
                },
            },
        ],
        GameRules::French => seq![
            GameSet {
                gamemode: GameMode::Emballage,
                params: ModeParams {
                    player_number: 2,
                    tricks_to_win: 8,
                    min_points: 2,
                    points_per_suppl_trick: 2,
                    max_tricks_allowed: None,
                },
            },
            GameSet {
                gamemode: GameMode::Seul,
                params: ModeParams {
                    player_number: 1,
                    tricks_to_win: 5,
                    min_points: 6,
                    points_per_suppl_trick: 3,
                    max_tricks_allowed: None,
                },
            },
        ],
    }
}

/// The gamemodes that `rules` plays with, each as a table of parameters.
pub fn select_rules(rules: GameRules) -> (sets: Vec<GameSet>)
    ensures
        sets@ == tables(rules),
{
    match rules {
        GameRules::Dutch => {
            let emballage = GameSet {
                gamemode: GameMode::Emballage,
                params: ModeParams {
                    player_number: 2,
                    tricks_to_win: 8,
                    min_points: 2,
                    points_per_suppl_trick: 1,
                    max_tricks_allowed: None,
                },
            };
            let seul = GameSet {
                gamemode: GameMode::Seul,
                params: ModeParams {
                    player_number: 1,
                    tricks_to_win: 6,
                    min_points: 6,
                    points_per_suppl_trick: 3,
                    max_tricks_allowed: Some(8),
                },
            };
            let sets = vec![emballage, seul];
            assert(sets@ =~= tables(GameRules::Dutch));
            sets
        },
        GameRules::French => {
            let emballage = GameSet {
                gamemode: GameMode::Emballage,
                params: ModeParams {
                    player_number: 2,
                    tricks_to_win: 8,
                    min_points: 2,
                    points_per_suppl_trick: 2,
                    max_tricks_allowed: None,
                },
            };
            let seul = GameSet {
                gamemode: GameMode::Seul,
                params: ModeParams {
                    player_number: 1,
                    tricks_to_win: 5,
                    min_points: 6,
                    points_per_suppl_trick: 3,
                    max_tricks_allowed: None,
                },
            };
            let sets = vec![emballage, seul];
            assert(sets@ =~= tables(GameRules::French));
            sets
        },
    }
}

} // verus!
