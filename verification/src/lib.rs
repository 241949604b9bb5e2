//! A verified engine for Conway's Game of Life on a fixed-size,
//! non-wrapping grid.
//!
//! The crate is split into a grid data model ([`grid`]), the pure
//! generation stepper ([`stepper`]), the stateful simulation with its
//! run/pause lifecycle ([`state`]), and proofs of the global behaviour
//! that relates several operations ([`laws`]).

pub mod cell;
pub mod grid;
pub mod laws;
pub mod state;
pub mod stepper;
