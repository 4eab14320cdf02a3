//! A Snake simulation on a square torus grid.
//!
//! The grid is implicit: a side length `width` and flat cell indices
//! `0..width * width`. The [`world::World`] owns the snake, the reward cell,
//! the hazard cell, the score and the game status, and advances one tick per
//! call of `step`. Random draws are supplied by the caller as plain numbers.
//!
//! Every executable function is verified against the mathematical model in
//! [`model`]; [`laws`] states properties that relate several of them.

pub mod grid;
pub mod model;
pub mod world;
pub mod laws;

pub use grid::{Direction, SnakeCell};
pub use model::GameStatus;
pub use world::{World, WorldError};
