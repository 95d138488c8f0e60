//! A toroidal cellular automaton with bounded rewind, age tracking and an
//! age-to-color gradient.

pub mod grid;
pub mod store;
pub mod game;
pub mod input;
pub mod schedule;
pub mod color_gradient;
pub mod config;
