//! Conway's Game of Life on a toroidal board, with a catalogue of classic
//! patterns and automatic reseeding once the board goes quiet.

mod chance;
pub mod laws;
pub mod life;
pub mod pattern;
pub mod render;
pub mod rules;
pub mod seeding;
