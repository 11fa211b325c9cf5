//! Conway's Game of Life on a bounded grid.
//!
//! The grid keeps a dense table of cells next to the set of the cells that
//! are alive. Cells are edited one by one while the simulation is paused and
//! advance by whole generations while it runs.

use vstd::prelude::*;

pub mod board;
pub mod board_lemmas;
pub mod cell;
pub mod config;
pub mod generation;
pub mod grid;
pub mod laws;
pub mod live_set;
pub mod session;

verus! {

/// Edge length of one cell, in pixels. Window sizes are multiples of it.
pub const BLOCK_SIZE: usize = 10;

} // verus!
