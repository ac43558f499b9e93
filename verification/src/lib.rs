//! Core engine for the "Hit and Blow" guessing game.
//!
//! The engine hides a secret of four pairwise-distinct digits drawn from 1–6.
//! A player submits guesses; each guess is scored with *hits* (right digit,
//! right position) and *blows* (right digit, wrong position) until the secret
//! is found or the attempt budget runs out.

pub mod game;
pub mod score;

pub use game::Game;
pub use game::GuessResult;
