//! A hangman game: guess evaluation and the layout of the board.
pub mod board;
pub mod game;
