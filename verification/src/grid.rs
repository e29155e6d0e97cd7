//! The toroidal cell grid and its B3/S23 stepper.
//!
//! Cells are stored in one flat buffer in column-major order: cell `(x, y)`
//! lives at index `x * GRID_H + y`. The mathematical view of a grid is the
//! sequence of its cell states, and every contract below is stated over that
//! view.

use vstd::prelude::*;

use crate::{GRID_H, GRID_W};

verus! {

/// Number of cells in the grid.
pub open spec fn grid_area() -> int {
    (GRID_W as int) * (GRID_H as int)
}

/// Whether `(x, y)` names a cell of the grid.
pub open spec fn in_bounds(x: int, y: int) -> bool {
    0 <= x < GRID_W as int && 0 <= y < GRID_H as int
}

/// Flat buffer index of cell `(x, y)`.
pub open spec fn cell_index(x: int, y: int) -> int {
    x * (GRID_H as int) + y
}

/// Toroidal predecessor of `i` on an axis of length `n`: 0 wraps to `n - 1`.
pub open spec fn wrap_dec(i: int, n: int) -> int {
    if i > 0 {
        i - 1
    } else {
        n - 1
    }
}

/// Toroidal successor of `i` on an axis of length `n`: `n - 1` wraps to 0.
pub open spec fn wrap_inc(i: int, n: int) -> int {
    if i + 1 < n {
        i + 1
    } else {
        0
    }
}

/// A live cell counts 1, a dead cell 0.
pub open spec fn b2i(b: bool) -> int {
    if b {
        1
    } else {
        0
    }
}

/// State of cell `(x, y)` in the flat cell sequence `s`.
pub open spec fn cell_at(s: Seq<bool>, x: int, y: int) -> bool {
    s[cell_index(x, y)]
}

/// `(x, y)` is a cell of the grid and live in `s`.
pub open spec fn live_at(s: Seq<bool>, x: int, y: int) -> bool {
    in_bounds(x, y) && cell_at(s, x, y)
}

/// Number of live cells among the 8 Moore neighbours of `(x, y)`, with
/// toroidal wrap on both axes.
pub open spec fn spec_neighbour_count(s: Seq<bool>, x: int, y: int) -> int {
    let xl = wrap_dec(x, GRID_W as int);
    let xr = wrap_inc(x, GRID_W as int);
    let yu = wrap_dec(y, GRID_H as int);
    let yd = wrap_inc(y, GRID_H as int);
    b2i(cell_at(s, xl, yu)) + b2i(cell_at(s, x, yu)) + b2i(cell_at(s, xr, yu)) + b2i(
        cell_at(s, xl, y),
    ) + b2i(cell_at(s, xr, y)) + b2i(cell_at(s, xl, yd)) + b2i(cell_at(s, x, yd)) + b2i(
        cell_at(s, xr, yd),
    )
}

/// The B3/S23 rule: a live cell survives on 2 or 3 live neighbours, a dead
/// cell is born on exactly 3.
pub open spec fn life_rule(alive: bool, k: int) -> bool {
    if alive {
        k == 2 || k == 3
    } else {
        k == 3
    }
}

/// One generation of the whole grid: every cell of the result is determined
/// by the old snapshot `s` alone.
pub open spec fn spec_step(s: Seq<bool>) -> Seq<bool> {
    Seq::new(
        grid_area() as nat,
        |i: int|
            life_rule(s[i], spec_neighbour_count(s, i / (GRID_H as int), i % (GRID_H as int))),
    )
}

/// `n` generations of the grid.
pub open spec fn iter_step(s: Seq<bool>, n: nat) -> Seq<bool>
    decreases n,
{
    if n == 0 {
        s
    } else {
        spec_step(iter_step(s, (n - 1) as nat))
    }
}

/// Increment that stops at the top of `u64` instead of wrapping.
pub open spec fn sat_inc(n: u64) -> u64 {
    if n == u64::MAX {
        n
    } else {
        (n + 1) as u64
    }
}

/// Every cell of `s` is dead.
pub open spec fn all_dead(s: Seq<bool>) -> bool {
    forall|i: int| 0 <= i < s.len() ==> !s[i]
}

/// The fixed `GRID_W` x `GRID_H` matrix of cells.
pub struct Grid {
    cells: Vec<bool>,
    generation: u64,
}

impl View for Grid {
    type V = Seq<bool>;

    closed spec fn view(&self) -> Seq<bool> {
        self.cells@
    }
}

/// The flat index of a cell determines its coordinates and stays inside the
/// buffer.
pub proof fn lemma_cell_index(x: int, y: int)
    requires
        in_bounds(x, y),
    ensures
        0 <= cell_index(x, y) < grid_area(),
        cell_index(x, y) / (GRID_H as int) == x,
        cell_index(x, y) % (GRID_H as int) == y,
{
    vstd::arithmetic::div_mod::lemma_fundamental_div_mod_converse_div(
        cell_index(x, y),
        GRID_H as int,
        x,
        y,
    );
    vstd::arithmetic::div_mod::lemma_fundamental_div_mod_converse_mod(
        cell_index(x, y),
        GRID_H as int,
        x,
        y,
    );
}

/// A neighbour count is always between 0 and 8, whatever the position.
pub proof fn lemma_neighbour_count_range(s: Seq<bool>, x: int, y: int)
    ensures
        0 <= spec_neighbour_count(s, x, y) <= 8,
{
}

/// The stepped grid, cell by cell: the new state of `(x, y)` is the rule
/// applied to the old state and the old neighbour count.
pub proof fn lemma_step_cell(s: Seq<bool>, x: int, y: int)
    requires
        in_bounds(x, y),
    ensures
        cell_at(spec_step(s), x, y) == life_rule(cell_at(s, x, y), spec_neighbour_count(s, x, y)),
{
    lemma_cell_index(x, y);
}

impl Grid {
    /// The cell buffer always holds exactly one state per cell.
    pub open spec fn wf(&self) -> bool {
        self@.len() == grid_area()
    }

    /// State of cell `(x, y)` in the mathematical view.
    pub open spec fn cell(&self, x: int, y: int) -> bool {
        cell_at(self@, x, y)
    }

    /// Number of generations stepped since construction.
    pub closed spec fn spec_generation(&self) -> u64 {
        self.generation
    }

    /// A fresh grid: every cell dead, generation zero.
    pub fn new() -> (g: Grid)
        ensures
            g.wf(),
            all_dead(g@),
            g.spec_generation() == 0,
    {
        Grid { cells: dead_cells(), generation: 0 }
    }

    /// Read one cell.
    pub fn get(&self, x: usize, y: usize) -> (b: bool)
        requires
            self.wf(),
            x < GRID_W,
            y < GRID_H,
        ensures
            b == self.cell(x as int, y as int),
    {
        self.cells[x * GRID_H + y]
    }

    /// Write one cell; every other cell keeps its state.
    pub fn set(&mut self, x: usize, y: usize, v: bool)
        requires
            old(self).wf(),
            x < GRID_W,
            y < GRID_H,
        ensures
            final(self).wf(),
            final(self)@ == old(self)@.update(cell_index(x as int, y as int), v),
            final(self).spec_generation() == old(self).spec_generation(),
    {
        self.cells.set(x * GRID_H + y, v);
    }

    /// Kill every cell. The generation counter is untouched.
    pub fn clear(&mut self)
        ensures
            final(self).wf(),
            all_dead(final(self)@),
            final(self).spec_generation() == old(self).spec_generation(),
    {
        self.cells = dead_cells();
    }

    /// How many generations have been stepped.
    pub fn generation(&self) -> (n: u64)
        ensures
            n == self.spec_generation(),
    {
        self.generation
    }

    /// Count the live cells among the 8 toroidal neighbours of `(x, y)`.
    #[verifier::rlimit(60)]
    pub fn neighbour_count(&self, x: usize, y: usize) -> (k: u8)
        requires
            self.wf(),
            x < GRID_W,
            y < GRID_H,
        ensures
            k as int == spec_neighbour_count(self@, x as int, y as int),
            k <= 8,
    {
        let xl = if x > 0 {
            x - 1
        } else {
            GRID_W - 1
        };
        let xr = if x + 1 < GRID_W {
            x + 1
        } else {
            0
        };
        let yu = if y > 0 {
            y - 1
        } else {
            GRID_H - 1
        };
        let yd = if y + 1 < GRID_H {
            y + 1
        } else {
            0
        };
        let mut k: u8 = 0;
        if self.get(xl, yu) {
            k = k + 1;
        }
        if self.get(x, yu) {
            k = k + 1;
        }
        if self.get(xr, yu) {
            k = k + 1;
        }
        if self.get(xl, y) {
            k = k + 1;
        }
        if self.get(xr, y) {
            k = k + 1;
        }
        if self.get(xl, yd) {
            k = k + 1;
        }
        if self.get(x, yd) {
            k = k + 1;
        }
        if self.get(xr, yd) {
            k = k + 1;
        }
        k
    }

    /// Advance one generation atomically: the whole new buffer is computed
    /// from the old snapshot before any cell becomes visible, so no cell ever
    /// reads a half-updated neighbourhood.
    pub fn step(&mut self)
        requires
            old(self).wf(),
        ensures
            final(self).wf(),
            final(self)@ == spec_step(old(self)@),
            final(self).spec_generation() == sat_inc(old(self).spec_generation()),
    {
        let ghost s0 = self@;
        let mut next: Vec<bool> = Vec::new();
        let mut x: usize = 0;
        while x < GRID_W
            invariant
                self.wf(),
                self@ == s0,
                x <= GRID_W,
                next@.len() == (x as int) * (GRID_H as int),
                forall|i: int| 0 <= i < next@.len() ==> next@[i] == spec_step(s0)[i],
            decreases GRID_W - x,
        {
            let mut y: usize = 0;
            while y < GRID_H
                invariant
                    self.wf(),
                    self@ == s0,
                    x < GRID_W,
                    y <= GRID_H,
                    next@.len() == cell_index(x as int, y as int),
                    forall|i: int| 0 <= i < next@.len() ==> next@[i] == spec_step(s0)[i],
                decreases GRID_H - y,
            {
                let k = self.neighbour_count(x, y);
                let alive = self.get(x, y);
                let born = if alive {
                    k == 2 || k == 3
                } else {
                    k == 3
                };
                proof {
                    lemma_cell_index(x as int, y as int);
                    assert(spec_step(s0)[cell_index(x as int, y as int)] == life_rule(
                        cell_at(s0, x as int, y as int),
                        spec_neighbour_count(s0, x as int, y as int),
                    ));
                }
                next.push(born);
                y = y + 1;
            }
            x = x + 1;
        }
        proof {
            assert(next@ =~= spec_step(s0));
        }
        self.cells = next;
        self.generation = if self.generation == u64::MAX {
            u64::MAX
        } else {
            self.generation + 1
        };
    }

    /// The coordinates of every live cell, each exactly once.
    pub fn live_cells(&self) -> (v: Vec<(usize, usize)>)
        requires
            self.wf(),
        ensures
            forall|t: int| 0 <= t < v@.len() ==> live_at(self@, #[trigger] v@[t].0 as int, v@[t].1 as int),
            forall|x: int, y: int| #[trigger] live_at(self@, x, y) ==> v@.contains(
                ((x as usize, y as usize)),
            ),
            forall|t1: int, t2: int| 0 <= t1 < t2 < v@.len() ==> v@[t1] != v@[t2],
    {
        let ghost s = self@;
        let mut v: Vec<(usize, usize)> = Vec::new();
        let n: usize = GRID_W * GRID_H;
        let mut i: usize = 0;
        while i < n
            invariant
                self.wf(),
                self@ == s,
                i <= n,
                n == grid_area(),
                forall|t: int| 0 <= t < v@.len() ==> live_at(s, #[trigger] v@[t].0 as int, v@[t].1 as int),
                forall|t: int| 0 <= t < v@.len() ==> cell_index(#[trigger] v@[t].0 as int, v@[t].1 as int) < i,
                forall|t1: int, t2: int| 0 <= t1 < t2 < v@.len() ==> cell_index(v@[t1].0 as int, v@[t1].1 as int) < cell_index(
                    v@[t2].0 as int,
                    v@[t2].1 as int,
                ),
                forall|j: int| 0 <= j < i && s[j] ==> v@.contains(
                    (((j / (GRID_H as int)) as usize, (j % (GRID_H as int)) as usize)),
                ),
            decreases n - i,
        {
            if self.cells[i] {
                let x = i / GRID_H;
                let y = i % GRID_H;
                let ghost vold = v@;
                v.push((x, y));
                proof {
                    lemma_coords_in_bounds(i as int);
                    assert(v@[vold.len() as int] == (x, y));
                    assert forall|j: int| 0 <= j < i + 1 && s[j] implies v@.contains(
                        (((j / (GRID_H as int)) as usize, (j % (GRID_H as int)) as usize)),
                    ) by {
                        let e = ((j / (GRID_H as int)) as usize, (j % (GRID_H as int)) as usize);
                        if j == i {
                            assert(v@[vold.len() as int] == e);
                        } else {
                            assert(vold.contains(e));
                            let t = choose|t: int| 0 <= t < vold.len() && vold[t] == e;
                            assert(v@[t] == e);
                        }
                    }
                }
            }
            i = i + 1;
        }
        proof {
            assert forall|x: int, y: int| #[trigger] live_at(s, x, y) implies v@.contains(
                ((x as usize, y as usize)),
            ) by {
                lemma_cell_index(x, y);
                let j = cell_index(x, y);
                assert(s[j]);
                assert(v@.contains((((j / (GRID_H as int)) as usize, (j % (GRID_H as int)) as usize))));
            }
            assert forall|t1: int, t2: int| 0 <= t1 < t2 < v@.len() implies v@[t1] != v@[t2] by {
                if v@[t1] == v@[t2] {
                    assert(cell_index(v@[t1].0 as int, v@[t1].1 as int) == cell_index(
                        v@[t2].0 as int,
                        v@[t2].1 as int,
                    ));
                }
            }
        }
        v
    }
}

/// Every flat index names a cell of the grid.
pub proof fn lemma_coords_in_bounds(i: int)
    requires
        0 <= i < grid_area(),
    ensures
        in_bounds(i / (GRID_H as int), i % (GRID_H as int)),
        cell_index(i / (GRID_H as int), i % (GRID_H as int)) == i,
{
    vstd::arithmetic::div_mod::lemma_fundamental_div_mod(i, GRID_H as int);
}

/// Emptiness is a fixpoint: stepping an all-dead grid yields the same
/// all-dead grid.
pub proof fn lemma_dead_grid_fixpoint(s: Seq<bool>)
    requires
        s.len() == grid_area(),
        all_dead(s),
    ensures
        spec_step(s) == s,
{
    assert forall|i: int| 0 <= i < grid_area() implies spec_step(s)[i] == s[i] by {
        let x = i / (GRID_H as int);
        let y = i % (GRID_H as int);
        lemma_coords_in_bounds(i);
        lemma_neighbour_reads_in_range(s, x, y);
        assert(spec_neighbour_count(s, x, y) == 0);
    }
    assert(spec_step(s) =~= s);
}

/// Under wrap every cell has 8 live neighbours in a fully live grid, so the
/// whole grid dies of overpopulation in one step.
pub proof fn lemma_full_grid_dies(s: Seq<bool>)
    requires
        s.len() == grid_area(),
        forall|i: int| 0 <= i < s.len() ==> s[i],
    ensures
        all_dead(spec_step(s)),
{
    assert forall|i: int| 0 <= i < spec_step(s).len() implies !spec_step(s)[i] by {
        let x = i / (GRID_H as int);
        let y = i % (GRID_H as int);
        lemma_coords_in_bounds(i);
        lemma_neighbour_reads_in_range(s, x, y);
        assert(spec_neighbour_count(s, x, y) == 8);
    }
}

/// The neighbour count expanded into its eight reads, each of which lands
/// inside the cell buffer.
proof fn lemma_neighbour_reads_in_range(s: Seq<bool>, x: int, y: int)
    requires
        s.len() == grid_area(),
        in_bounds(x, y),
    ensures
        spec_neighbour_count(s, x, y) == b2i(cell_at(s, wrap_dec(x, GRID_W as int), wrap_dec(y, GRID_H as int)))
            + b2i(cell_at(s, x, wrap_dec(y, GRID_H as int)))
            + b2i(cell_at(s, wrap_inc(x, GRID_W as int), wrap_dec(y, GRID_H as int)))
            + b2i(cell_at(s, wrap_dec(x, GRID_W as int), y))
            + b2i(cell_at(s, wrap_inc(x, GRID_W as int), y))
            + b2i(cell_at(s, wrap_dec(x, GRID_W as int), wrap_inc(y, GRID_H as int)))
            + b2i(cell_at(s, x, wrap_inc(y, GRID_H as int)))
            + b2i(cell_at(s, wrap_inc(x, GRID_W as int), wrap_inc(y, GRID_H as int))),
        forall|a: int, b: int| in_bounds(a, b) ==> #[trigger] cell_at(s, a, b) == s[cell_index(a, b)]
            && 0 <= cell_index(a, b) < s.len(),
{
    assert forall|a: int, b: int| in_bounds(a, b) implies #[trigger] cell_at(s, a, b) == s[
        cell_index(a, b)
    ] && 0 <= cell_index(a, b) < s.len() by {
        lemma_cell_index(a, b);
    }
}

/// Two generations are the one-step map applied twice: iteration introduces
/// no order-of-update artefacts.
pub proof fn lemma_step_twice(s: Seq<bool>)
    ensures
        iter_step(s, 2) == spec_step(spec_step(s)),
{
    assert(iter_step(s, 0) == s);
    assert(iter_step(s, 1) == spec_step(iter_step(s, 0)));
    assert(iter_step(s, 2) == spec_step(iter_step(s, 1)));
}

/// One dead cell per grid position.
fn dead_cells() -> (v: Vec<bool>)
    ensures
        v@.len() == grid_area(),
        all_dead(v@),
{
    let mut v: Vec<bool> = Vec::new();
    let n: usize = GRID_W * GRID_H;
    let mut i: usize = 0;
    while i < n
        invariant
            i <= n,
            n == grid_area(),
            v@.len() == i,
            all_dead(v@),
        decreases n - i,
    {
        v.push(false);
        i = i + 1;
    }
    v
}

} // verus!
