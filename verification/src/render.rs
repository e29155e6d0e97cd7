//! The renderer adapter: the palette and the pixel geometry that an external
//! canvas needs to draw one frame. Dead cells are not drawn; a live cell is
//! a filled `CELL_SIZE` square at its scaled coordinates.

use vstd::prelude::*;

use crate::state::Mode;
use crate::{CELL_SIZE, GRID_H, GRID_W};

verus! {

/// An sRGB colour triple.
#[derive(Clone, Copy, Debug, PartialEq, Eq, Structural)]
pub struct Rgb {
    pub r: u8,
    pub g: u8,
    pub b: u8,
}

/// Canvas background per mode: white while running, light grey while
/// editing.
pub open spec fn spec_background(m: Mode) -> Rgb {
    match m {
        Mode::Running => (Rgb { r: 255, g: 255, b: 255 }),
        Mode::PausedEditing => (Rgb { r: 220, g: 220, b: 220 }),
    }
}

/// Live-cell fill per mode: black while running, dark grey while editing.
pub open spec fn spec_cell_colour(m: Mode) -> Rgb {
    match m {
        Mode::Running => (Rgb { r: 0, g: 0, b: 0 }),
        Mode::PausedEditing => (Rgb { r: 50, g: 50, b: 50 }),
    }
}

/// The background colour for the current mode.
pub fn background_color(m: Mode) -> (c: Rgb)
    ensures
        c == spec_background(m),
{
    match m {
        Mode::Running => Rgb { r: 255, g: 255, b: 255 },
        Mode::PausedEditing => Rgb { r: 220, g: 220, b: 220 },
    }
}

/// The live-cell colour for the current mode.
pub fn cell_color(m: Mode) -> (c: Rgb)
    ensures
        c == spec_cell_colour(m),
{
    match m {
        Mode::Running => Rgb { r: 0, g: 0, b: 0 },
        Mode::PausedEditing => Rgb { r: 50, g: 50, b: 50 },
    }
}

/// Pixel rectangle covered by cell `(x, y)`: a `CELL_SIZE` square whose
/// corner is the cell coordinate scaled by the cell size.
pub fn cell_rect(x: usize, y: usize) -> (rect: (usize, usize, usize, usize))
    requires
        x < GRID_W,
        y < GRID_H,
    ensures
        rect.0 == x * CELL_SIZE,
        rect.1 == y * CELL_SIZE,
        rect.2 == CELL_SIZE,
        rect.3 == CELL_SIZE,
{
    (x * CELL_SIZE, y * CELL_SIZE, CELL_SIZE, CELL_SIZE)
}

} // verus!
