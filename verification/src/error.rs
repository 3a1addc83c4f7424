//! What can go wrong while a hand is collected and scored.

use vstd::prelude::*;
use vstd::string::StringExecFns;

verus! {

/// A value handed to the library that it cannot work with.
#[derive(Debug)]
pub enum InputError {
    /// The value has the wrong shape; the text says how.
    InvalidInput(String),
    /// The scores cannot be shared out so that the table sums to zero.
    WrongScore,
}

impl InputError {
    /// The text shown to a user for this error.
    pub fn message(&self) -> (text: String)
        ensures
            self matches InputError::InvalidInput(reason) ==> text@ == "invalid input: "@
                + reason@,
            self is WrongScore ==> text@ == "The score sum cannot be zero"@,
    {
        match self {
            InputError::InvalidInput(reason) => String::from_str("invalid input: ").concat(
                reason.as_str(),
            ),
            InputError::WrongScore => String::from_str("The score sum cannot be zero"),
        }
    }
}

/// Why a hand could not be built.
#[derive(Debug)]
pub enum HandBuildError {
    /// The contractors are missing or do not fit the contract.
    Contractors(&'static str),
    /// The bid is missing or outside what the contract allows.
    Bid(&'static str),
}

impl HandBuildError {
    /// The text carried by this error.
    pub open spec fn reason(&self) -> Seq<char> {
        match self {
            HandBuildError::Contractors(reason) => reason@,
            HandBuildError::Bid(reason) => reason@,
        }
    }

    /// The text shown to a user for this error.
    pub fn message(&self) -> (text: String)
        ensures
            text@ == self.reason(),
    {
        match self {
            HandBuildError::Contractors(reason) => String::from_str(reason),
            HandBuildError::Bid(reason) => String::from_str(reason),
        }
    }
}

/// Errors of a whole game.
#[derive(Debug)]
pub enum GameError {
    /// The table already has its four players.
    TooManyPlayer,
    /// The name is taken by another player.
    PlayerAlreadyExists,
    /// A hand could not be built; the text says why.
    HandBuildError(String),
}

impl GameError {
    /// The text shown to a user for this error.
    pub fn message(&self) -> (text: String)
        ensures
            self is TooManyPlayer ==> text@ == "Expected 4 players"@,
            self is PlayerAlreadyExists ==> text@ == "This player name already exists"@,
            self matches GameError::HandBuildError(reason) ==> text@
                == "Something went wrong while building hand: "@ + reason@,
    {
        match self {
            GameError::TooManyPlayer => String::from_str("Expected 4 players"),
            GameError::PlayerAlreadyExists => String::from_str("This player name already exists"),
            GameError::HandBuildError(reason) => String::from_str(
                "Something went wrong while building hand: ",
            ).concat(reason.as_str()),
        }
    }
}

impl From<InputError> for GameError {
    /// Whatever the input error was, the game reports a wrong user input.
    fn from(_value: InputError) -> (e: GameError)
        ensures
            e matches GameError::HandBuildError(reason) && reason@ == "Wrong user input"@,
    {
        GameError::HandBuildError(String::from_str("Wrong user input"))
    }
}

impl From<HandBuildError> for GameError {
    /// The game reports the reason the builder gave.
    fn from(value: HandBuildError) -> (e: GameError)
        ensures
            e matches GameError::HandBuildError(reason) && reason@ == value.reason(),
    {
        GameError::HandBuildError(value.message())
    }
}

/// The text of the result is allocated anew, so no spec function can name the
/// result itself: the `ensures` of `from` says what it holds.
impl vstd::std_specs::convert::FromSpecImpl<InputError> for GameError {
    open spec fn obeys_from_spec() -> bool {
        false
    }

    open spec fn from_spec(value: InputError) -> GameError {
        arbitrary()
    }
}

/// As for [`InputError`]: the `ensures` of `from` says what the result holds.
impl vstd::std_specs::convert::FromSpecImpl<HandBuildError> for GameError {
    open spec fn obeys_from_spec() -> bool {
        false
    }

    open spec fn from_spec(value: HandBuildError) -> GameError {
        arbitrary()
    }
}

} // verus!
