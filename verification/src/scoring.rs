//! Value types shared by every scoring formula, and the interface of a formula.

use crate::distribution::{
    distribute_scores, is_distribution_of, scores_of, seats_distinct, share_fits, total,
};
use crate::error::InputError;
use crate::players::{PlayerId, PlayerIdAndScore, TOTAL_PLAYERS};
use vstd::prelude::*;

verus! {

/// Number of tricks in a hand.
pub const TOTAL_TRICKS: i16 = 13;

/// A trick count outside `0..=13`.
#[derive(Clone, Copy, Debug, PartialEq, Eq, Structural)]
pub struct InvalidTricks(pub u8);

/// Number of tricks won in a hand, between [`Tricks::MIN`] and [`Tricks::MAX`].
#[derive(Clone, Copy, Debug, PartialEq, Eq, Structural)]
pub struct Tricks(u8);

impl View for Tricks {
    type V = int;

    closed spec fn view(&self) -> int {
        self.0 as int
    }
}

impl Tricks {
    /// The fewest tricks a player can take.
    pub const MIN: u8 = 0;

    /// The most tricks a player can take.
    pub const MAX: u8 = 13;

    #[verifier::type_invariant]
    closed spec fn in_range(&self) -> bool {
        self.0 <= Self::MAX
    }

    /// The trick count of `value` tricks, for `value` in range.
    pub closed spec fn of(value: int) -> Tricks {
        Tricks(value as u8)
    }

    /// The trick count of `value` tricks counts `value` tricks.
    pub proof fn lemma_of_view(value: int)
        requires
            Tricks::MIN <= value <= Tricks::MAX,
        ensures
            Tricks::of(value)@ == value,
    {
    }

    /// The count as a machine integer.
    pub fn value(&self) -> (v: u8)
        ensures
            v == self@,
            Tricks::MIN <= v <= Tricks::MAX,
    {
        proof {
            use_type_invariant(self);
        }
        self.0
    }

    /// The trick count nearest to `tricks` in `0..=13`.
    pub fn clamped(tricks: i16) -> (t: Tricks)
        ensures
            t@ == clamp_int(tricks as int, Tricks::MIN as int, Tricks::MAX as int),
    {
        if tricks < 0 {
            Tricks(Self::MIN)
        } else if tricks > TOTAL_TRICKS {
            Tricks(Self::MAX)
        } else {
            Tricks(tricks as u8)
        }
    }
}

/// `value` brought into `low..=high`.
pub open spec fn clamp_int(value: int, low: int, high: int) -> int {
    if value < low {
        low
    } else if value > high {
        high
    } else {
        value
    }
}

impl TryFrom<u8> for Tricks {
    type Error = InvalidTricks;

    fn try_from(value: u8) -> (r: Result<Tricks, InvalidTricks>)
        ensures
            value <= Tricks::MAX ==> r is Ok && r->Ok_0@ == value,
            value > Tricks::MAX ==> r == Err::<Tricks, InvalidTricks>(InvalidTricks(value)),
    {
        if value > Self::MAX {
            return Err(InvalidTricks(value));
        }
        Ok(Tricks(value))
    }
}

impl vstd::std_specs::convert::TryFromSpecImpl<u8> for Tricks {
    open spec fn obeys_try_from_spec() -> bool {
        true
    }

    open spec fn try_from_spec(value: u8) -> Result<Tricks, InvalidTricks> {
        if value <= Tricks::MAX {
            Ok(Tricks::of(value as int))
        } else {
            Err(InvalidTricks(value))
        }
    }
}

impl From<Tricks> for i16 {
    fn from(value: Tricks) -> (r: i16) {
        value.value() as i16
    }
}

impl vstd::std_specs::convert::FromSpecImpl<Tricks> for i16 {
    open spec fn obeys_from_spec() -> bool {
        true
    }

    open spec fn from_spec(value: Tricks) -> i16 {
        value@ as i16
    }
}

impl std::ops::Deref for Tricks {
    type Target = u8;

    fn deref(&self) -> (count: &u8)
        ensures
            *count == self@,
            Tricks::MIN <= *count <= Tricks::MAX,
    {
        proof {
            use_type_invariant(self);
        }
        &self.0
    }
}

/// How base points scale into a final score.
#[derive(Clone, Copy, Debug, PartialEq, Eq, Structural)]
pub enum PointsCoefficient {
    /// The contract was made: the base points count once.
    One,
    /// Every trick was taken: the base points count twice.
    Double,
    /// The contract was lost: the base points count twice, against the player.
    DoubleNeg,
}

impl PointsCoefficient {
    /// The multiplier this coefficient stands for.
    pub open spec fn value(self) -> int {
        match self {
            PointsCoefficient::One => 1,
            PointsCoefficient::Double => 2,
            PointsCoefficient::DoubleNeg => -2,
        }
    }

    /// `points` scaled by this coefficient.
    pub open spec fn apply(self, points: int) -> int {
        match self {
            PointsCoefficient::One => points,
            PointsCoefficient::Double => 2 * points,
            PointsCoefficient::DoubleNeg => -2 * points,
        }
    }

    /// The multiplier as a machine integer.
    pub fn as_i8(self) -> (r: i8)
        ensures
            r == self.value(),
    {
        match self {
            PointsCoefficient::One => 1,
            PointsCoefficient::Double => 2,
            PointsCoefficient::DoubleNeg => -2,
        }
    }
}

impl From<PointsCoefficient> for i8 {
    fn from(v: PointsCoefficient) -> (r: i8) {
        v.as_i8()
    }
}

impl vstd::std_specs::convert::FromSpecImpl<PointsCoefficient> for i8 {
    open spec fn obeys_from_spec() -> bool {
        true
    }

    open spec fn from_spec(v: PointsCoefficient) -> i8 {
        v.value() as i8
    }
}

impl From<PointsCoefficient> for i16 {
    fn from(v: PointsCoefficient) -> (r: i16) {
        v.as_i8() as i16
    }
}

impl vstd::std_specs::convert::FromSpecImpl<PointsCoefficient> for i16 {
    open spec fn obeys_from_spec() -> bool {
        true
    }

    open spec fn from_spec(v: PointsCoefficient) -> i16 {
        v.value() as i16
    }
}

impl From<PointsCoefficient> for i32 {
    fn from(v: PointsCoefficient) -> (r: i32) {
        v.as_i8() as i32
    }
}

impl vstd::std_specs::convert::FromSpecImpl<PointsCoefficient> for i32 {
    open spec fn obeys_from_spec() -> bool {
        true
    }

    open spec fn from_spec(v: PointsCoefficient) -> i32 {
        v.value() as i32
    }
}

impl From<PointsCoefficient> for i64 {
    fn from(v: PointsCoefficient) -> (r: i64) {
        v.as_i8() as i64
    }
}

impl vstd::std_specs::convert::FromSpecImpl<PointsCoefficient> for i64 {
    open spec fn obeys_from_spec() -> bool {
        true
    }

    open spec fn from_spec(v: PointsCoefficient) -> i64 {
        v.value() as i64
    }
}

/// How a hand ended for the contractors.
#[derive(Clone, Copy, Debug, PartialEq, Eq, Structural)]
pub enum GameResult {
    /// The contract was made.
    Win,
    /// The contract was lost.
    Lose,
    /// The contract was made with every trick.
    Capot,
}

impl GameResult {
    /// The coefficient that this outcome puts on the base points.
    pub open spec fn coefficient_spec(self) -> PointsCoefficient {
        match self {
            GameResult::Win => PointsCoefficient::One,
            GameResult::Lose => PointsCoefficient::DoubleNeg,
            GameResult::Capot => PointsCoefficient::Double,
        }
    }

    /// The coefficient that this outcome puts on the base points.
    pub fn coefficient(self) -> (c: PointsCoefficient)
        ensures
            c == self.coefficient_spec(),
    {
        match self {
            GameResult::Win => PointsCoefficient::One,
            GameResult::Lose => PointsCoefficient::DoubleNeg,
            GameResult::Capot => PointsCoefficient::Double,
        }
    }
}

impl PointsCoefficient {
    /// The outcome that puts this coefficient on the base points.
    pub fn result(self) -> (outcome: GameResult)
        ensures
            outcome.coefficient_spec() == self,
    {
        match self {
            PointsCoefficient::One => GameResult::Win,
            PointsCoefficient::DoubleNeg => GameResult::Lose,
            PointsCoefficient::Double => GameResult::Capot,
        }
    }
}

/// The seats of `players_and_tricks`, each with the score that `score_at`
/// gives its tricks.
pub open spec fn scored_entries(
    players_and_tricks: Seq<(PlayerId, Tricks)>,
    score_at: spec_fn(int) -> int,
) -> Seq<PlayerIdAndScore> {
    Seq::new(
        players_and_tricks.len(),
        |k: int|
            PlayerIdAndScore {
                id: players_and_tricks[k].0,
                score: score_at(players_and_tricks[k].1@) as i16,
            },
    )
}

/// A scoring formula: from the tricks a contractor took to base points and the
/// coefficient that scales them.
///
/// The final score of a contractor at `tricks` is
/// `coefficient(tricks).apply(points(tricks))`.
///
/// A formula says what it computes in the four spec functions, and the two
/// methods that it must provide are held to them. Each spec function has a
/// body for the formula that says nothing: it asks for no trick, takes every
/// trick count and gives no points, once.
pub trait Score {
    /// The least number of tricks with which the contract is made.
    open spec fn min_tricks_spec(&self) -> int {
        0
    }

    /// The trick counts at which the formula can be computed.
    open spec fn accepts(&self, tricks: int) -> bool {
        true
    }

    /// Base points at `tricks`.
    open spec fn points(&self, tricks: int) -> int {
        0
    }

    /// Coefficient at `tricks`.
    open spec fn coefficient(&self, tricks: int) -> PointsCoefficient {
        PointsCoefficient::One
    }

    /// The least number of tricks with which the contract is made.
    fn min_tricks(&self) -> (least: i16)
        ensures
            least == self.min_tricks_spec(),
    ;

    /// The base points at `tricks` and the coefficient that scales them.
    fn calculate_score(&self, tricks: i16) -> (r: (i16, PointsCoefficient))
        requires
            self.accepts(tricks as int),
        ensures
            r.0 == self.points(tricks as int),
            r.1 == self.coefficient(tricks as int),
    ;

    /// The score of one contractor who took `tricks`: the base points scaled
    /// by the coefficient. Takes the tricks at which an `i16` can hold it.
    fn get_single_player_score(&self, tricks: i16) -> (score: i16)
        requires
            self.accepts(tricks as int),
            i16::MIN <= self.coefficient(tricks as int).apply(self.points(tricks as int))
                <= i16::MAX,
        ensures
            score == self.coefficient(tricks as int).apply(self.points(tricks as int)),
    {
        let (points, coefficient) = self.calculate_score(tricks);
        match coefficient {
            PointsCoefficient::One => points,
            PointsCoefficient::Double => (2 * (points as i32)) as i16,
            PointsCoefficient::DoubleNeg => (-2 * (points as i32)) as i16,
        }
    }

    /// The score of each of the four players, for the tricks of those who are
    /// known.
    ///
    /// Each listed player gets the score of the formula at their tricks, and the
    /// others share equally what is missing to zero. Fails where that share is
    /// no whole number. Where no seat is listed twice, the table sums to zero.
    ///
    /// Takes at most three players, so that one is left to share with, each
    /// in a seat of the table and with tricks that the formula scores within
    /// an `i16`, and a share that an `i16` can hold.
    fn get_each_player_score(&self, players_and_tricks: &[(PlayerId, Tricks)]) -> (r: Result<
        [i16; 4],
        InputError,
    >)
        requires
            players_and_tricks@.len() < TOTAL_PLAYERS,
            forall|k: int|
                0 <= k < players_and_tricks@.len() ==> {
                    let tricks = (#[trigger] players_and_tricks@[k]).1@;
                    &&& players_and_tricks@[k].0.is_valid()
                    &&& self.accepts(tricks)
                    &&& i16::MIN <= self.coefficient(tricks).apply(self.points(tricks)) <= i16::MAX
                },
            share_fits(
                scored_entries(
                    players_and_tricks@,
                    |tricks: int| self.coefficient(tricks).apply(self.points(tricks)),
                ),
            ),
        ensures
            is_distribution_of(
                r,
                scored_entries(
                    players_and_tricks@,
                    |tricks: int| self.coefficient(tricks).apply(self.points(tricks)),
                ),
            ),
            seats_distinct(
                scored_entries(
                    players_and_tricks@,
                    |tricks: int| self.coefficient(tricks).apply(self.points(tricks)),
                ),
            ) ==> (r matches Ok(scores) ==> total(scores_of(scores)) == 0),
    {
        let ghost wanted = scored_entries(
            players_and_tricks@,
            |tricks: int| self.coefficient(tricks).apply(self.points(tricks)),
        );
        let mut entries: Vec<PlayerIdAndScore> = Vec::new();
        let mut k: usize = 0;
        while k < players_and_tricks.len()
            invariant
                k <= players_and_tricks@.len(),
                wanted == scored_entries(
                    players_and_tricks@,
                    |tricks: int| self.coefficient(tricks).apply(self.points(tricks)),
                ),
                forall|j: int|
                    0 <= j < players_and_tricks@.len() ==> {
                        let tricks = (#[trigger] players_and_tricks@[j]).1@;
                        &&& players_and_tricks@[j].0.is_valid()
                        &&& self.accepts(tricks)
                        &&& i16::MIN <= self.coefficient(tricks).apply(self.points(tricks))
                            <= i16::MAX
                    },
                entries@ == wanted.take(k as int),
            decreases players_and_tricks@.len() - k,
        {
            let (id, tricks) = players_and_tricks[k];
            let score = self.get_single_player_score(tricks.value() as i16);
            entries.push(PlayerIdAndScore::new(id, score));
            k += 1;
            proof {
                assert(entries@ =~= wanted.take(k as int));
            }
        }
        proof {
            assert(wanted.take(k as int) =~= wanted);
            assert(entries@ == wanted);
            assert forall|j: int| 0 <= j < entries@.len() implies (
            #[trigger] entries@[j]).id.is_valid() by {
                assert(players_and_tricks@[j].0.is_valid());
            }
        }
        distribute_scores(entries.as_slice())
    }
}

} // verus!
