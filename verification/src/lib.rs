//! A turn-based grid game: a player token walks a 5x5 board and collects
//! numbered rubbish cells, which add to the score.

pub mod action;
pub mod board;
pub mod console;
pub mod game;
pub mod position;
pub mod render;
pub mod text;
