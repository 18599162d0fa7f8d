//! Simulation core of a grid-based snake game: the board geometry, the snake,
//! collision detection, food placement and the per-tick game controller.
pub mod collision;
pub mod food;
pub mod game;
pub mod geometry;
pub mod snake;
