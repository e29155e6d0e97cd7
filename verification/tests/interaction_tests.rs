use conway_life::clock::Clock;
use conway_life::input::{route_key, route_motion, Command, Key};
use conway_life::render::{background_color, cell_color, cell_rect, Rgb};
use conway_life::state::{Mode, State};
use conway_life::CELL_SIZE;

#[test]
fn initial_state_runs_slowly_on_an_empty_grid() {
    let s = State::new();
    assert_eq!(s.mode, Mode::Running);
    assert_eq!(s.rate, 10);
    assert_eq!(s.grid.live_cells().len(), 0);
}

#[test]
fn rate_saturates_at_both_ends() {
    let mut s = State::new();
    s.speed_down();
    assert_eq!(s.rate, 10);
    for _ in 0..7 {
        s.speed_up();
    }
    assert_eq!(s.rate, 80);
    s.speed_up();
    assert_eq!(s.rate, 80);
    s.speed_down();
    assert_eq!(s.rate, 70);
}

#[test]
fn two_space_toggles_restore_the_mode() {
    let mut s = State::new();
    s.key_down(Key::Space, false);
    assert_eq!(s.mode, Mode::PausedEditing);
    s.key_down(Key::Space, false);
    assert_eq!(s.mode, Mode::Running);
}

#[test]
fn auto_repeat_space_is_filtered() {
    let mut s = State::new();
    s.key_down(Key::Space, true);
    assert_eq!(s.mode, Mode::Running);
    s.key_down(Key::Space, false);
    s.key_down(Key::Space, true);
    assert_eq!(s.mode, Mode::PausedEditing);
}

#[test]
fn painting_is_ignored_while_running() {
    let mut s = State::new();
    assert_eq!(s.mode, Mode::Running);
    s.pointer_motion(30, 30);
    s.paint_cell(1, 1);
    s.apply(Command::PaintAt(30, 30));
    assert_eq!(s.grid.live_cells().len(), 0);
}

#[test]
fn painting_works_while_editing_and_drops_off_grid_points() {
    let mut s = State::new();
    s.enter_edit();
    s.pointer_motion(30, 30);
    assert!(s.grid.get(1, 1));
    s.pointer_motion(0, 0);
    assert!(s.grid.get(0, 0));
    // beyond the last pixel column: silently dropped
    s.pointer_motion(120 * CELL_SIZE, 5);
    assert_eq!(s.grid.live_cells().len(), 2);
    // painting an already live cell never erases it
    s.pointer_motion(30, 30);
    assert!(s.grid.get(1, 1));
    assert_eq!(s.grid.live_cells().len(), 2);
}

#[test]
fn clear_kills_every_cell_and_keeps_the_mode() {
    let mut s = State::new();
    s.enter_edit();
    s.paint_cell(4, 4);
    s.paint_cell(5, 5);
    assert_eq!(s.grid.live_cells().len(), 2);
    s.key_down(Key::Delete, false);
    assert_eq!(s.grid.live_cells().len(), 0);
    assert_eq!(s.mode, Mode::PausedEditing);
    s.exit_edit();
    s.key_down(Key::Delete, false);
    assert_eq!(s.mode, Mode::Running);
}

#[test]
fn editing_freezes_the_stepper() {
    let mut s = State::new();
    s.enter_edit();
    s.paint_cell(10, 10);
    s.paint_cell(11, 10);
    s.paint_cell(12, 10);
    s.advance(5);
    let mut cells = s.grid.live_cells();
    cells.sort();
    assert_eq!(cells, vec![(10, 10), (11, 10), (12, 10)]);
}

#[test]
fn key_routing_matches_the_table() {
    assert_eq!(route_key(Key::Space, false), Some(Command::ToggleMode));
    assert_eq!(route_key(Key::Space, true), None);
    assert_eq!(route_key(Key::Up, false), Some(Command::SpeedUp));
    assert_eq!(route_key(Key::Up, true), Some(Command::SpeedUp));
    assert_eq!(route_key(Key::Down, false), Some(Command::SpeedDown));
    assert_eq!(route_key(Key::Delete, false), Some(Command::ClearGrid));
    assert_eq!(route_key(Key::Other, false), None);
    assert_eq!(route_motion(Mode::Running, 3, 4), None);
    assert_eq!(
        route_motion(Mode::PausedEditing, 3, 4),
        Some(Command::PaintAt(3, 4))
    );
}

#[test]
fn pause_speed_up_resume_sequence() {
    let mut s = State::new();
    assert_eq!(s.mode, Mode::Running);
    s.key_down(Key::Space, false);
    assert_eq!(s.mode, Mode::PausedEditing);
    assert_eq!(background_color(s.mode), Rgb { r: 220, g: 220, b: 220 });
    // the stepper has ceased
    s.paint_cell(10, 10);
    s.advance(3);
    assert!(s.grid.get(10, 10));
    assert_eq!(s.grid.generation(), 0);
    s.key_down(Key::Up, false);
    s.key_down(Key::Up, false);
    s.key_down(Key::Up, false);
    assert_eq!(s.rate, 40);
    s.key_down(Key::Space, false);
    assert_eq!(s.mode, Mode::Running);
    assert_eq!(background_color(s.mode), Rgb { r: 255, g: 255, b: 255 });
    s.advance(1);
    assert_eq!(s.grid.generation(), 1);
}

#[test]
fn paint_a_diagonal_then_resume_and_step() {
    let mut s = State::new();
    s.enter_edit();
    for i in 0..4 {
        s.pointer_motion(i * CELL_SIZE, i * CELL_SIZE);
    }
    for i in 0..4 {
        assert!(s.grid.get(i, i));
    }
    assert_eq!(s.grid.live_cells().len(), 4);
    s.exit_edit();
    assert_eq!(s.mode, Mode::Running);
    s.advance(1);
    // the diagonal's interior survives on two neighbours; its ends die
    assert!(s.grid.get(1, 1));
    assert!(s.grid.get(2, 2));
    assert!(!s.grid.get(0, 0));
    assert!(!s.grid.get(3, 3));
    assert_eq!(s.grid.live_cells().len(), 2);
}

#[test]
fn palette_follows_the_mode() {
    assert_eq!(background_color(Mode::Running), Rgb { r: 255, g: 255, b: 255 });
    assert_eq!(cell_color(Mode::Running), Rgb { r: 0, g: 0, b: 0 });
    assert_eq!(background_color(Mode::PausedEditing), Rgb { r: 220, g: 220, b: 220 });
    assert_eq!(cell_color(Mode::PausedEditing), Rgb { r: 50, g: 50, b: 50 });
}

#[test]
fn cells_are_drawn_as_scaled_squares() {
    assert_eq!(cell_rect(0, 0), (0, 0, CELL_SIZE, CELL_SIZE));
    assert_eq!(cell_rect(3, 2), (60, 40, CELL_SIZE, CELL_SIZE));
    assert_eq!(cell_rect(119, 79), (2380, 1580, CELL_SIZE, CELL_SIZE));
}

#[test]
fn clock_owes_no_tick_before_the_deadline() {
    let mut c = Clock::new(0, 10);
    assert_eq!(c.deadline_us, 100_000);
    assert_eq!(c.ticks_due(50_000, 10), 0);
    assert_eq!(c.deadline_us, 100_000);
}

#[test]
fn clock_pays_one_tick_per_interval() {
    let mut c = Clock::new(0, 10);
    assert_eq!(c.ticks_due(100_000, 10), 1);
    assert_eq!(c.deadline_us, 200_000);
    assert_eq!(c.ticks_due(350_000, 10), 2);
    assert_eq!(c.deadline_us, 400_000);
}

#[test]
fn clock_caps_catch_up_after_a_stall() {
    let mut c = Clock::new(0, 10);
    let k = c.ticks_due(3_000_000, 10);
    assert_eq!(k, 5);
    assert_eq!(c.deadline_us, 600_000);
}

#[test]
fn clock_reset_swallows_the_pause() {
    let mut c = Clock::new(0, 10);
    c.reset(5_000_000, 20);
    assert_eq!(c.deadline_us, 5_050_000);
    assert_eq!(c.ticks_due(5_049_999, 20), 0);
    assert_eq!(c.ticks_due(5_050_000, 20), 1);
}
