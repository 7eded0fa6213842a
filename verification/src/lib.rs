//! Placement engine of a falling-block puzzle game.
//!
//! The engine owns a fixed grid of locked cells and at most one falling
//! piece. It decides whether a piece may spawn, slide or rotate, settles a
//! piece that can fall no further, removes the rows this completes and
//! reports the points the settling earned.

pub mod bag;
pub mod board;
pub mod pieces;
pub mod progress;
pub mod rows;
pub mod text;
pub mod utils;
