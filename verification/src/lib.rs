//! A snake game on a bounded grid: the rules of movement, turning, collision
//! and growth, the cells a frame paints, and the reaction to each key press.

pub mod grid;
pub mod state;
pub mod random;
pub mod game;
pub mod laws;
pub mod render;
pub mod session;
