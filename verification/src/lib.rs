//! A dice-betting game, with everything a simulation of it decides proved.
//!
//! A player names a bet and rolls two six-sided dice. A roll that sums to the
//! bet or more pays the bet; any other roll pays 2. Before the payout the
//! player may use one power on the roll: roll both dice again, or turn a low
//! die to show 4. A strategy says which power to use for a bet and a roll.
//!
//! The rolls come from the `rand` crate and are the only thing the proofs
//! take on trust; see [`random`].

pub mod average;
pub mod dice;
pub mod outcome;
pub mod random;
pub mod strategy;
