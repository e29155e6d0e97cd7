//! The input router: raw key and pointer events become semantic commands,
//! and commands are applied to the interaction state.

use vstd::prelude::*;

use crate::grid::{all_dead, cell_index, in_bounds};
use crate::state::{
    pixel_to_cell, sat_speed_down, sat_speed_up, toggled, Mode, State,
};

verus! {

/// The keys the router distinguishes; every other key is `Other`.
#[derive(Clone, Copy, Debug, PartialEq, Eq, Structural)]
pub enum Key {
    Space,
    Up,
    Down,
    Delete,
    Other,
}

/// The semantic commands that raw input maps to.
#[derive(Clone, Copy, Debug, PartialEq, Eq, Structural)]
pub enum Command {
    ToggleMode,
    SpeedUp,
    SpeedDown,
    ClearGrid,
    EnterEdit,
    ExitEdit,
    PaintAt(usize, usize),
}

/// What one key press maps to. Auto-repeat presses of Space are filtered so
/// that holding the key does not strobe the mode; the other keys act on
/// every press.
pub open spec fn spec_route_key(key: Key, repeat: bool) -> Option<Command> {
    match key {
        Key::Space => if repeat {
            None
        } else {
            Some(Command::ToggleMode)
        },
        Key::Up => Some(Command::SpeedUp),
        Key::Down => Some(Command::SpeedDown),
        Key::Delete => Some(Command::ClearGrid),
        Key::Other => None,
    }
}

/// Map one key press to its command.
pub fn route_key(key: Key, repeat: bool) -> (c: Option<Command>)
    ensures
        c == spec_route_key(key, repeat),
{
    match key {
        Key::Space => if repeat {
            None
        } else {
            Some(Command::ToggleMode)
        },
        Key::Up => Some(Command::SpeedUp),
        Key::Down => Some(Command::SpeedDown),
        Key::Delete => Some(Command::ClearGrid),
        Key::Other => None,
    }
}

/// What pointer motion at pixel `(px, py)` maps to: a paint command while
/// editing, nothing while running.
pub open spec fn spec_route_motion(m: Mode, px: usize, py: usize) -> Option<Command> {
    match m {
        Mode::PausedEditing => Some(Command::PaintAt(px, py)),
        Mode::Running => None,
    }
}

/// Map one pointer-motion sample to its command.
pub fn route_motion(m: Mode, px: usize, py: usize) -> (c: Option<Command>)
    ensures
        c == spec_route_motion(m, px, py),
{
    match m {
        Mode::PausedEditing => Some(Command::PaintAt(px, py)),
        Mode::Running => None,
    }
}

impl State {
    /// Apply one semantic command to the state.
    pub fn apply(&mut self, cmd: Command)
        requires
            old(self).wf(),
        ensures
            final(self).wf(),
            cmd == Command::ToggleMode ==> final(self).mode == toggled(old(self).mode)
                && final(self).grid == old(self).grid && final(self).rate == old(self).rate,
            cmd == Command::SpeedUp ==> final(self).rate == sat_speed_up(old(self).rate)
                && final(self).grid == old(self).grid && final(self).mode == old(self).mode,
            cmd == Command::SpeedDown ==> final(self).rate == sat_speed_down(old(self).rate)
                && final(self).grid == old(self).grid && final(self).mode == old(self).mode,
            cmd == Command::ClearGrid ==> all_dead(final(self).grid@)
                && final(self).mode == old(self).mode && final(self).rate == old(self).rate,
            cmd == Command::EnterEdit ==> final(self).mode == Mode::PausedEditing
                && final(self).grid == old(self).grid && final(self).rate == old(self).rate,
            cmd == Command::ExitEdit ==> final(self).mode == Mode::Running
                && final(self).grid == old(self).grid && final(self).rate == old(self).rate,
            cmd matches Command::PaintAt(px, py) ==> final(self).mode == old(self).mode
                && final(self).rate == old(self).rate,
            cmd matches Command::PaintAt(px, py) ==> ((old(self).mode == Mode::PausedEditing
                && in_bounds(pixel_to_cell(px as int), pixel_to_cell(py as int)))
                ==> final(self).grid@ == old(self).grid@.update(
                cell_index(pixel_to_cell(px as int), pixel_to_cell(py as int)),
                true,
            )),
            cmd matches Command::PaintAt(px, py) ==> (!(old(self).mode == Mode::PausedEditing
                && in_bounds(pixel_to_cell(px as int), pixel_to_cell(py as int)))
                ==> final(self).grid == old(self).grid),
    {
        match cmd {
            Command::ToggleMode => self.toggle_mode(),
            Command::SpeedUp => self.speed_up(),
            Command::SpeedDown => self.speed_down(),
            Command::ClearGrid => self.clear_grid(),
            Command::EnterEdit => self.enter_edit(),
            Command::ExitEdit => self.exit_edit(),
            Command::PaintAt(px, py) => self.paint_pixel(px, py),
        }
    }

    /// Handle one raw key press, as the window system reports it.
    pub fn key_down(&mut self, key: Key, repeat: bool)
        requires
            old(self).wf(),
        ensures
            final(self).wf(),
            key == Key::Space && !repeat ==> final(self).mode == toggled(old(self).mode)
                && final(self).grid == old(self).grid && final(self).rate == old(self).rate,
            key == Key::Space && repeat ==> *final(self) == *old(self),
            key == Key::Up ==> final(self).rate == sat_speed_up(old(self).rate)
                && final(self).grid == old(self).grid && final(self).mode == old(self).mode,
            key == Key::Down ==> final(self).rate == sat_speed_down(old(self).rate)
                && final(self).grid == old(self).grid && final(self).mode == old(self).mode,
            key == Key::Delete ==> all_dead(final(self).grid@)
                && final(self).mode == old(self).mode && final(self).rate == old(self).rate,
            key == Key::Other ==> *final(self) == *old(self),
    {
        match route_key(key, repeat) {
            Some(cmd) => self.apply(cmd),
            None => (),
        }
    }

    /// Handle one raw pointer-motion sample at pixel `(px, py)`.
    pub fn pointer_motion(&mut self, px: usize, py: usize)
        requires
            old(self).wf(),
        ensures
            final(self).wf(),
            final(self).mode == old(self).mode,
            final(self).rate == old(self).rate,
            old(self).mode == Mode::Running ==> final(self).grid == old(self).grid,
            old(self).mode == Mode::PausedEditing && in_bounds(
                pixel_to_cell(px as int),
                pixel_to_cell(py as int),
            ) ==> final(self).grid@ == old(self).grid@.update(
                cell_index(pixel_to_cell(px as int), pixel_to_cell(py as int)),
                true,
            ),
            old(self).mode == Mode::PausedEditing && !in_bounds(
                pixel_to_cell(px as int),
                pixel_to_cell(py as int),
            ) ==> final(self).grid == old(self).grid,
    {
        match route_motion(self.mode, px, py) {
            Some(cmd) => self.apply(cmd),
            None => (),
        }
    }
}

} // verus!
