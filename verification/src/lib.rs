//! Core of a two-player turn-based grid battle game.
//!
//! Each player owns a square board of single-cell ships; players alternate
//! firing at coordinates on the opponent's board until one side's ships are
//! all sunk. This crate holds the verified game state machine: coordinate
//! validation, the board and its cell transitions, ship placement, attack
//! resolution, turn sequencing and win detection, plus the pure parsing and
//! rendering functions that the text interface around it relies on.

pub mod board;
pub mod error;
pub mod game;
pub mod parse;
pub mod player;
