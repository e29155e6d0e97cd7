use conway_life::grid::Grid;
use conway_life::{GRID_H, GRID_W};

fn assert_exact_live(g: &Grid, cells: &[(usize, usize)]) {
    for &(x, y) in cells {
        assert!(g.get(x, y), "cell ({}, {}) should be alive", x, y);
    }
    assert_eq!(g.live_cells().len(), cells.len());
}

#[test]
fn empty_grid_is_a_fixpoint() {
    let mut g = Grid::new();
    g.step();
    assert_eq!(g.live_cells().len(), 0);
    assert_eq!(g.generation(), 1);
}

#[test]
fn full_grid_steps_to_all_dead() {
    let mut g = Grid::new();
    for x in 0..GRID_W {
        for y in 0..GRID_H {
            g.set(x, y, true);
        }
    }
    assert_eq!(g.live_cells().len(), GRID_W * GRID_H);
    g.step();
    assert_eq!(g.live_cells().len(), 0);
}

#[test]
fn blinker_has_period_two() {
    let mut g = Grid::new();
    g.set(10, 10, true);
    g.set(11, 10, true);
    g.set(12, 10, true);
    g.step();
    assert_exact_live(&g, &[(11, 9), (11, 10), (11, 11)]);
    g.step();
    assert_exact_live(&g, &[(10, 10), (11, 10), (12, 10)]);
}

#[test]
fn block_is_a_still_life() {
    let mut g = Grid::new();
    let block = [(5, 5), (6, 5), (5, 6), (6, 6)];
    for &(x, y) in &block {
        g.set(x, y, true);
    }
    for _ in 0..6 {
        g.step();
        assert_exact_live(&g, &block);
    }
}

#[test]
fn blinker_wraps_across_the_seam() {
    let mut g = Grid::new();
    g.set(119, 0, true);
    g.set(0, 0, true);
    g.set(1, 0, true);
    g.step();
    assert_exact_live(&g, &[(0, 79), (0, 0), (0, 1)]);
    g.step();
    assert_exact_live(&g, &[(119, 0), (0, 0), (1, 0)]);
}

#[test]
fn glider_translates_by_one_one_in_four_steps() {
    let mut g = Grid::new();
    for &(x, y) in &[(1, 0), (2, 1), (0, 2), (1, 2), (2, 2)] {
        g.set(x, y, true);
    }
    for _ in 0..4 {
        g.step();
    }
    assert_exact_live(&g, &[(2, 1), (3, 2), (1, 3), (2, 3), (3, 3)]);
    assert!(!g.get(1, 0));
    assert!(!g.get(0, 2));
    assert!(!g.get(2, 2));
}

#[test]
fn neighbour_count_wraps_at_every_corner() {
    let mut g = Grid::new();
    g.set(119, 79, true);
    assert_eq!(g.neighbour_count(0, 0), 1);
    assert_eq!(g.neighbour_count(118, 78), 1);
    assert_eq!(g.neighbour_count(119, 79), 0);

    let mut h = Grid::new();
    for &(x, y) in &[
        (119, 79),
        (0, 79),
        (1, 79),
        (119, 0),
        (1, 0),
        (119, 1),
        (0, 1),
        (1, 1),
    ] {
        h.set(x, y, true);
    }
    assert_eq!(h.neighbour_count(0, 0), 8);
}

#[test]
fn set_get_and_clear_round_trip() {
    let mut g = Grid::new();
    assert!(!g.get(3, 4));
    g.set(3, 4, true);
    assert!(g.get(3, 4));
    g.set(3, 4, false);
    assert!(!g.get(3, 4));
    g.set(0, 0, true);
    g.set(119, 79, true);
    g.step();
    let gen = g.generation();
    g.clear();
    assert_eq!(g.live_cells().len(), 0);
    assert_eq!(g.generation(), gen);
}

#[test]
fn generation_counts_steps() {
    let mut g = Grid::new();
    assert_eq!(g.generation(), 0);
    g.step();
    g.step();
    g.step();
    assert_eq!(g.generation(), 3);
}

#[test]
fn live_cells_lists_each_live_cell_once() {
    let mut g = Grid::new();
    g.set(0, 0, true);
    g.set(0, 1, true);
    g.set(119, 79, true);
    let mut cells = g.live_cells();
    cells.sort();
    assert_eq!(cells, vec![(0, 0), (0, 1), (119, 79)]);
}
