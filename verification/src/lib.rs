//! Conway's Game of Life on a bounded grid, with a frame pacer that decides
//! when the next generation is due.
//!
//! The mathematical model of a grid and the laws of the update rule live in
//! [`model`]; [`grid`] holds the executable grid, [`pacer`] the frame divider,
//! [`random`] the source of random cell states and [`simulation`] the pairing of
//! a grid with a pacer that a front-end drives with commands.

pub mod grid;
pub mod model;
pub mod pacer;
pub mod random;
pub mod simulation;
