//! A two-paddle ball game: the per-frame simulation of ball, paddles, score
//! and scripted opponent, over fixed-point numbers.

pub mod assets;
pub mod fixed;
pub mod game;
pub mod laws;
pub mod render;
