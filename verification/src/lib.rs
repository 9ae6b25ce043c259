//! A verified two-player tic-tac-toe engine.

pub mod game;
pub mod game_field;
pub mod player;
pub mod proofs;
pub mod ui;
