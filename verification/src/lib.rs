//! A verified engine for a grid snake game.
//!
//! The engine owns the whole game state: the segmented body of the snake,
//! the committed and pending movement directions, the food cell, and the
//! play status. Every transition (`next_tick`, the direction commands,
//! `toggle_pause`, `regenerate_food`) carries a contract, and the laws
//! module states the global guarantees that relate them.

pub mod game;
pub mod laws;
mod rng;
