//! A snake on a square grid: it moves one cell per tick, grows when it eats,
//! and the game ends when its head runs into its own body.

pub mod food;
pub mod game;
pub mod grid;
pub mod snake;
