//! The validation errors that the game core can report.
//!
//! All of them are recoverable: the surrounding text interface answers each
//! one by prompting again, and none of them ever terminates a game.

use vstd::prelude::*;

verus! {

/// A validation error raised by the game core.
#[derive(Clone, Copy, Debug, PartialEq, Eq, Structural)]
pub enum GameError {
    /// An index or position lies outside the board, or a board size of zero
    /// was requested.
    OutOfBounds,
    /// A ship placement targeted a cell that already holds a ship.
    ShipAlreadyPlaced,
    /// A line of input was empty, non-numeric, too large to represent, or
    /// zero where a positive number is required.
    MalformedInput,
}

impl GameError {
    /// A short human-readable description of the error, for the text
    /// interface to display when it prompts again.
    pub fn message(&self) -> (msg: &'static str)
        ensures
            *self is OutOfBounds ==> msg@ == "Index out of bounds"@,
            *self is ShipAlreadyPlaced ==> msg@ == "Ship already placed"@,
            *self is MalformedInput ==> msg@ == "Invalid input"@,
    {
        match self {
            GameError::OutOfBounds => "Index out of bounds",
            GameError::ShipAlreadyPlaced => "Ship already placed",
            GameError::MalformedInput => "Invalid input",
        }
    }
}

} // verus!
