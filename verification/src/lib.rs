//! Conway's Game of Life on a toroidal grid.
//!
//! The library holds the simulation core: the wrapped cell grid with its
//! double-buffered B3/S23 stepper, the fixed-rate tick clock, the
//! running/editing mode machine with its input router and painter, and the
//! palette and geometry that a renderer needs. Window creation, event
//! acquisition and drawing are left to the surrounding program.

use vstd::prelude::*;

pub mod clock;
pub mod grid;
pub mod input;
pub mod render;
pub mod state;

verus! {

/// Side length of one grid cell on the canvas, in pixels.
pub const CELL_SIZE: usize = 20;

/// Grid width, in cells.
pub const GRID_W: usize = 120;

/// Grid height, in cells.
pub const GRID_H: usize = 80;

/// Slowest simulation rate, in ticks per second.
pub const MIN_RATE: u32 = 10;

/// Fastest simulation rate, in ticks per second.
pub const MAX_RATE: u32 = 80;

/// Amount by which one speed command changes the rate.
pub const RATE_STEP: u32 = 10;

/// Cap on the number of simulation ticks performed in one frame, so that a
/// long stall never causes an unbounded burst of catch-up work.
pub const MAX_TICKS_PER_FRAME: u32 = 5;

} // verus!
