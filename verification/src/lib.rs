//! Scoring and hand construction for a four-player Whist-family card game.
//!
//! A hand is played under a [`contracts::Contract`]: a gamemode with its point
//! formula, a bid ceiling and the number of players who take the contract on.
//! A [`hand::HandBuilder`] collects who contracts, what they bid and how many
//! tricks they took, and the functions of [`distribution`] turn the resulting
//! score into a vector over the four players that sums to zero.
//!
//! - [`scoring`]: trick counts, coefficients, and what a point formula is;
//! - [`gamemodes`]: the formulas of Emballage, Seul, Picolo and Misere;
//! - [`contracts`] and [`rules`]: the contracts and the sets of rules that
//!   play with them;
//! - [`contractors`]: who takes a contract on, before and after scoring;
//! - [`hand`]: the builder, the hand and what is kept of it;
//! - [`distribution`]: from the scores of some players to those of all four;
//! - [`players`]: the seats and the table of players;
//! - [`error`]: what can go wrong.

pub mod contractors;
pub mod contracts;
pub mod distribution;
pub mod error;
pub mod gamemodes;
pub mod hand;
pub mod players;
pub mod rules;
pub mod scoring;
