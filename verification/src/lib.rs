//! Langton's Ant: a deterministic two-dimensional cellular automaton.
//!
//! A single agent (the ant) walks over a square grid of binary cells. Each
//! tick it reads the cell under itself, turns (right on a white cell, left on
//! a black one), flips the cell, and moves one cell forward in its new
//! heading. Movement clamps at the grid boundary: the ant sticks at the wall
//! rather than wrapping or erroring, a deliberate deviation from the
//! textbook infinite-grid automaton.
//!
//! The crate is the automaton's state-transition engine only: the grid model,
//! the ant's position/heading state machine, and the step function. Rendering
//! and frame timing belong to a driver outside the crate, which reads the
//! state between ticks.

use vstd::prelude::*;

pub mod ant;
pub mod direction;
pub mod grid;

verus! {

/// Default side length of the simulated grid; the default ant starts at its
/// center.
pub const GRID_SIZE: usize = 200;

} // verus!
