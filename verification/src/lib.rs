//! Ant, pillbug and spider colonies on a square board.

pub mod ant;
pub mod game;
pub mod grid;
pub mod insect;
pub mod map;
pub mod pillbug;
pub mod pos;
mod rng;
