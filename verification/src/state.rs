//! The interaction core: mode machine, tick rate, painter and stepper gating.

use vstd::prelude::*;

use crate::grid::{
    all_dead, cell_index, in_bounds, iter_step, spec_step, Grid,
};
use crate::{CELL_SIZE, GRID_H, GRID_W, MAX_RATE, MIN_RATE, RATE_STEP};

verus! {

/// The two modes of the machine: the simulation either runs on its own or
/// stands still while the user edits the grid.
#[derive(Clone, Copy, Debug, PartialEq, Eq, Structural)]
pub enum Mode {
    Running,
    PausedEditing,
}

/// The mode reached by one Space toggle.
pub open spec fn toggled(m: Mode) -> Mode {
    match m {
        Mode::Running => Mode::PausedEditing,
        Mode::PausedEditing => Mode::Running,
    }
}

/// Two toggles cancel: pressing Space twice restores the original mode.
pub proof fn lemma_toggle_twice(m: Mode)
    ensures
        toggled(toggled(m)) == m,
{
}

/// A tick rate the speed keys can reach: a multiple of `RATE_STEP` between
/// `MIN_RATE` and `MAX_RATE`.
pub open spec fn valid_rate(r: u32) -> bool {
    MIN_RATE <= r <= MAX_RATE && r % RATE_STEP == 0
}

/// One speed-up press: the rate rises one step and saturates at `MAX_RATE`.
pub open spec fn sat_speed_up(r: u32) -> u32 {
    if r >= MAX_RATE {
        MAX_RATE
    } else {
        (r + RATE_STEP) as u32
    }
}

/// One speed-down press: the rate falls one step and saturates at `MIN_RATE`.
pub open spec fn sat_speed_down(r: u32) -> u32 {
    if r <= MIN_RATE {
        MIN_RATE
    } else {
        (r - RATE_STEP) as u32
    }
}

/// The speed keys never leave the valid rate ladder, and at its ends they
/// saturate: speeding up at the top and slowing down at the bottom change
/// nothing.
pub proof fn lemma_rate_saturation(r: u32)
    requires
        valid_rate(r),
    ensures
        valid_rate(sat_speed_up(r)),
        valid_rate(sat_speed_down(r)),
        r == MAX_RATE ==> sat_speed_up(r) == MAX_RATE,
        r == MIN_RATE ==> sat_speed_down(r) == MIN_RATE,
{
}

/// Grid column under a pixel coordinate (and, symmetrically, the row).
pub open spec fn pixel_to_cell(p: int) -> int {
    p / (CELL_SIZE as int)
}

/// The whole interaction state: the cell grid, the target tick rate and the
/// current mode.
pub struct State {
    pub grid: Grid,
    pub rate: u32,
    pub mode: Mode,
}

impl State {
    /// The grid has its fixed size and the rate sits on the valid ladder.
    pub open spec fn wf(&self) -> bool {
        self.grid.wf() && valid_rate(self.rate)
    }

    /// The initial state: an all-dead grid, the slowest rate, running.
    pub fn new() -> (s: State)
        ensures
            s.wf(),
            all_dead(s.grid@),
            s.grid.spec_generation() == 0,
            s.rate == MIN_RATE,
            s.mode == Mode::Running,
    {
        State { grid: Grid::new(), rate: MIN_RATE, mode: Mode::Running }
    }

    /// Toggle between running and editing; nothing else moves.
    pub fn toggle_mode(&mut self)
        ensures
            final(self).mode == toggled(old(self).mode),
            final(self).grid == old(self).grid,
            final(self).rate == old(self).rate,
    {
        self.mode = match self.mode {
            Mode::Running => Mode::PausedEditing,
            Mode::PausedEditing => Mode::Running,
        };
    }

    /// Force editing mode, as a pointer-button press does.
    pub fn enter_edit(&mut self)
        ensures
            final(self).mode == Mode::PausedEditing,
            final(self).grid == old(self).grid,
            final(self).rate == old(self).rate,
    {
        self.mode = Mode::PausedEditing;
    }

    /// Force running mode, as a pointer-button release does.
    pub fn exit_edit(&mut self)
        ensures
            final(self).mode == Mode::Running,
            final(self).grid == old(self).grid,
            final(self).rate == old(self).rate,
    {
        self.mode = Mode::Running;
    }

    /// Raise the rate one step, saturating at the fastest rate.
    pub fn speed_up(&mut self)
        ensures
            final(self).rate == sat_speed_up(old(self).rate),
            final(self).grid == old(self).grid,
            final(self).mode == old(self).mode,
    {
        self.rate = if self.rate >= MAX_RATE {
            MAX_RATE
        } else {
            self.rate + RATE_STEP
        };
    }

    /// Lower the rate one step, saturating at the slowest rate.
    pub fn speed_down(&mut self)
        ensures
            final(self).rate == sat_speed_down(old(self).rate),
            final(self).grid == old(self).grid,
            final(self).mode == old(self).mode,
    {
        self.rate = if self.rate <= MIN_RATE {
            MIN_RATE
        } else {
            self.rate - RATE_STEP
        };
    }

    /// Kill every cell; the mode and the rate are untouched.
    pub fn clear_grid(&mut self)
        ensures
            final(self).grid.wf(),
            all_dead(final(self).grid@),
            final(self).grid.spec_generation() == old(self).grid.spec_generation(),
            final(self).mode == old(self).mode,
            final(self).rate == old(self).rate,
    {
        self.grid.clear();
    }

    /// Paint one cell live. The painter acts only in editing mode, silently
    /// drops coordinates off the grid, and never erases a live cell.
    pub fn paint_cell(&mut self, cx: usize, cy: usize)
        requires
            old(self).wf(),
        ensures
            final(self).wf(),
            final(self).mode == old(self).mode,
            final(self).rate == old(self).rate,
            final(self).grid.spec_generation() == old(self).grid.spec_generation(),
            old(self).mode == Mode::PausedEditing && in_bounds(cx as int, cy as int)
                ==> final(self).grid@ == old(self).grid@.update(
                cell_index(cx as int, cy as int),
                true,
            ),
            !(old(self).mode == Mode::PausedEditing && in_bounds(cx as int, cy as int))
                ==> final(self).grid == old(self).grid,
    {
        if self.mode == Mode::PausedEditing && cx < GRID_W && cy < GRID_H {
            self.grid.set(cx, cy, true);
        }
    }

    /// Painter entry for a pointer position in pixels: the cell under the
    /// pointer is the pixel position divided by the cell size.
    pub fn paint_pixel(&mut self, px: usize, py: usize)
        requires
            old(self).wf(),
        ensures
            final(self).wf(),
            final(self).mode == old(self).mode,
            final(self).rate == old(self).rate,
            final(self).grid.spec_generation() == old(self).grid.spec_generation(),
            old(self).mode == Mode::PausedEditing && in_bounds(
                pixel_to_cell(px as int),
                pixel_to_cell(py as int),
            ) ==> final(self).grid@ == old(self).grid@.update(
                cell_index(pixel_to_cell(px as int), pixel_to_cell(py as int)),
                true,
            ),
            !(old(self).mode == Mode::PausedEditing && in_bounds(
                pixel_to_cell(px as int),
                pixel_to_cell(py as int),
            )) ==> final(self).grid == old(self).grid,
    {
        let cx = px / CELL_SIZE;
        let cy = py / CELL_SIZE;
        self.paint_cell(cx, cy);
    }

    /// Perform `ticks` simulation ticks when running; in editing mode the
    /// stepper is frozen and nothing moves.
    pub fn advance(&mut self, ticks: u32)
        requires
            old(self).wf(),
        ensures
            final(self).wf(),
            final(self).mode == old(self).mode,
            final(self).rate == old(self).rate,
            old(self).mode == Mode::Running ==> final(self).grid@ == iter_step(
                old(self).grid@,
                ticks as nat,
            ),
            old(self).mode != Mode::Running ==> final(self).grid == old(self).grid,
    {
        if matches!(self.mode, Mode::Running) {
            let ghost g0 = self.grid@;
            let ghost m0 = self.mode;
            let ghost r0 = self.rate;
            let mut t: u32 = 0;
            while t < ticks
                invariant
                    t <= ticks,
                    self.grid.wf(),
                    self.grid@ == iter_step(g0, t as nat),
                    self.mode == m0,
                    self.rate == r0,
                decreases ticks - t,
            {
                self.grid.step();
                proof {
                    assert(iter_step(g0, (t + 1) as nat) == spec_step(iter_step(g0, t as nat)));
                }
                t = t + 1;
            }
        }
    }
}

} // verus!
