//! Sierpinski triangle rendering by the chaos game.
//!
//! A walk starts at a point of the canvas and moves, step by step, halfway
//! towards one of three triangle corners; every point the walk visits is
//! painted in a single draw color.

pub mod geometry;
pub mod canvas;
pub mod chaos;
pub mod render;
