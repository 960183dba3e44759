//! A two-player tic-tac-toe game: the board with its move and outcome rules,
//! and the turn protocol that drives it one line of input at a time.

pub mod board;
pub mod game;
pub mod input;
