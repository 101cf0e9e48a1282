//! A terminal word-guessing game: scoring of guesses against a secret word,
//! the per-letter keyboard summary, the word lists and the turn state machine.
use vstd::prelude::*;

pub mod game;
pub mod guess;
pub mod keyboard;
pub mod letter;
pub mod words;

verus! {

/// Number of letters in every word of the game.
pub const WORD_LENGTH: usize = 5;

/// Number of guesses the player may submit before the game is lost.
pub const GUESS_COUNT: usize = 6;

} // verus!
