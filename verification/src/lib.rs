//! Logic of a 3x3x3 Rubik's cube simulator: discrete layer turns on integer
//! cubie positions, the move queue and undo history, the WCA-style scramble,
//! the speed-solving timer, drag-to-turn resolution and the HUD texts.

pub mod geometry;
pub mod cube;
pub mod game;
pub mod random;
pub mod scramble;
pub mod text;
pub mod ui;
pub mod interaction;
pub mod retro;
pub mod laws;
