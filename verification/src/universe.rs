//! The resizable dense grid of cells and its generation-advance algorithm.

use vstd::prelude::*;

verus! {

use crate::cell::{Cell, next_state, flipped};
use crate::rng::random_u32;

/// Mathematical model of a universe: its dimensions and the row-major
/// sequence of cells.
#[verifier::ext_equal]
pub struct GridView {
    pub width: nat,
    pub height: nat,
    pub cells: Seq<Cell>,
}

impl GridView {
    /// The grid holds exactly one cell per coordinate pair.
    pub open spec fn wf(self) -> bool {
        self.cells.len() == self.width * self.height
    }

    pub open spec fn in_bounds(self, x: int, y: int) -> bool {
        0 <= x < self.width && 0 <= y < self.height
    }

    /// The cell at column `x`, row `y` (row-major storage).
    pub open spec fn cell(self, x: int, y: int) -> Cell {
        self.cells[y * (self.width as int) + x]
    }

    /// Whether `(x, y)` names a live cell; coordinates outside the grid count
    /// as dead, so the neighbour rule is bounded and does not wrap.
    pub open spec fn alive_at(self, x: int, y: int) -> bool {
        self.in_bounds(x, y) && self.cell(x, y) is Alive
    }

    /// The number of live cells among the eight grid-adjacent coordinates.
    pub open spec fn live_neighbours(self, x: int, y: int) -> int {
        ind(self.alive_at(x - 1, y - 1)) + ind(self.alive_at(x, y - 1)) + ind(
            self.alive_at(x + 1, y - 1),
        ) + ind(self.alive_at(x - 1, y)) + ind(self.alive_at(x + 1, y)) + ind(
            self.alive_at(x - 1, y + 1),
        ) + ind(self.alive_at(x, y + 1)) + ind(self.alive_at(x + 1, y + 1))
    }

    /// The state the cell at `(x, y)` takes in the next generation.
    pub open spec fn next_cell(self, x: int, y: int) -> Cell {
        next_state(self.cell(x, y), self.live_neighbours(x, y))
    }

    /// The next generation: same dimensions, every cell rewritten by the
    /// Conway rule applied to the current grid.
    pub open spec fn advanced(self) -> GridView {
        GridView {
            width: self.width,
            height: self.height,
            cells: Seq::new(
                self.width * self.height,
                |i: int| self.next_cell(i % (self.width as int), i / (self.width as int)),
            ),
        }
    }

    /// An all-dead grid of the given dimensions.
    pub open spec fn dead_grid(width: nat, height: nat) -> GridView {
        GridView { width, height, cells: Seq::new(width * height, |i: int| Cell::Dead) }
    }

    /// The same grid with every cell set to `c`.
    pub open spec fn filled(self, c: Cell) -> GridView {
        GridView { width: self.width, height: self.height, cells: Seq::new(self.cells.len(), |i: int| c) }
    }

    /// The same grid with every cell flipped.
    pub open spec fn inverted(self) -> GridView {
        GridView {
            width: self.width,
            height: self.height,
            cells: self.cells.map_values(|c: Cell| flipped(c)),
        }
    }

    /// The same grid with the single cell at `(x, y)` replaced by `c`.
    pub open spec fn with_cell(self, x: int, y: int, c: Cell) -> GridView {
        GridView {
            width: self.width,
            height: self.height,
            cells: self.cells.update(y * (self.width as int) + x, c),
        }
    }

    /// Every cell of the grid equals `c`.
    pub open spec fn all_cells_are(self, c: Cell) -> bool {
        forall|i: int| 0 <= i < self.cells.len() ==> self.cells[i] == c
    }
}

/// The cell one random draw decides: the draw's lowest bit picks between
/// alive and dead, so an even draw gives a dead cell and an odd one a live
/// cell.
pub fn random_cell(bits: u32) -> (c: Cell)
    ensures
        c == (if bits & 1 == 1 {
            Cell::Alive
        } else {
            Cell::Dead
        }),
{
    if bits & 1 == 1 {
        Cell::Alive
    } else {
        Cell::Dead
    }
}

/// 1 for a live coordinate, 0 for a dead one.
pub open spec fn ind(b: bool) -> int {
    if b {
        1
    } else {
        0
    }
}

/// Row-major index arithmetic: a coordinate pair inside a `w` by `h` grid
/// names an index below `w * h`, and the index determines the pair.
pub proof fn lemma_row_major_bounds(w: int, h: int, x: int, y: int)
    requires
        0 <= x < w,
        0 <= y < h,
    ensures
        0 <= y * w + x < w * h,
        (y * w + x) % w == x,
        (y * w + x) / w == y,
{
    assert(0 <= y * w + x < w * h) by (nonlinear_arith)
        requires
            0 <= x < w,
            0 <= y < h,
    ;
    assert((y * w + x) % w == x && (y * w + x) / w == y) by (nonlinear_arith)
        requires
            0 <= x < w,
            0 <= y,
    ;
}

/// Row-major index arithmetic, inverse direction: an index below `w * h`
/// decomposes into a coordinate pair inside the grid.
pub proof fn lemma_row_major_split(w: int, h: int, i: int)
    requires
        0 <= h,
        0 <= i < w * h,
    ensures
        w > 0,
        0 <= i % w < w,
        0 <= i / w < h,
        (i / w) * w + (i % w) == i,
{
    assert(w > 0) by (nonlinear_arith)
        requires
            0 <= h,
            0 <= i < w * h,
    ;
    assert(0 <= i % w < w && 0 <= i / w < h && (i / w) * w + (i % w) == i) by (nonlinear_arith)
        requires
            0 <= i < w * h,
            w > 0,
    ;
}

/// A resizable two-dimensional grid of cells, stored row-major.
pub struct Universe {
    width: usize,
    height: usize,
    cells: Vec<Cell>,
}

impl View for Universe {
    type V = GridView;

    closed spec fn view(&self) -> GridView {
        GridView { width: self.width as nat, height: self.height as nat, cells: self.cells@ }
    }
}

impl Universe {
    /// A new all-dead grid of the given dimensions.
    pub fn new(width: usize, height: usize) -> (r: Universe)
        requires
            width * height <= usize::MAX,
        ensures
            r@ == GridView::dead_grid(width as nat, height as nat),
            r@.wf(),
    {
        let n = width * height;
        let mut cells: Vec<Cell> = Vec::new();
        let mut i: usize = 0;
        while i < n
            invariant
                i <= n,
                cells@.len() == i,
                forall|k: int| 0 <= k < i ==> cells@[k] == Cell::Dead,
            decreases n - i,
        {
            cells.push(Cell::Dead);
            i += 1;
        }
        let r = Universe { width, height, cells };
        proof {
            assert(r@.cells =~= GridView::dead_grid(width as nat, height as nat).cells);
            assert(r@ =~= GridView::dead_grid(width as nat, height as nat));
        }
        r
    }

    /// The grid's width in cells.
    pub fn width(&self) -> (r: usize)
        ensures
            r == self@.width,
    {
        self.width
    }

    /// The grid's height in cells.
    pub fn height(&self) -> (r: usize)
        ensures
            r == self@.height,
    {
        self.height
    }

    /// The cell at `(x, y)`. Bounds are the caller's obligation.
    pub fn get(&self, x: usize, y: usize) -> (r: Cell)
        requires
            self@.wf(),
            x < self@.width,
            y < self@.height,
        ensures
            r == self@.cell(x as int, y as int),
    {
        proof {
            lemma_row_major_bounds(self@.width as int, self@.height as int, x as int, y as int);
            assert(self.cells.len() == self@.cells.len());
        }
        let idx = y * self.width + x;
        self.cells[idx]
    }

    /// Replaces the cell at `(x, y)`. Bounds are the caller's obligation.
    pub fn set(&mut self, x: usize, y: usize, cell: Cell)
        requires
            old(self)@.wf(),
            x < old(self)@.width,
            y < old(self)@.height,
        ensures
            final(self)@ == old(self)@.with_cell(x as int, y as int, cell),
            final(self)@.wf(),
    {
        proof {
            lemma_row_major_bounds(self@.width as int, self@.height as int, x as int, y as int);
            assert(self.cells.len() == self@.cells.len());
        }
        let idx = y * self.width + x;
        self.cells[idx] = cell;
    }

    /// Sets every cell to the given value.
    pub fn fill(&mut self, cell: Cell)
        requires
            old(self)@.wf(),
        ensures
            final(self)@ == old(self)@.filled(cell),
            final(self)@.wf(),
            final(self)@.all_cells_are(cell),
    {
        let n = self.cells.len();
        let mut i: usize = 0;
        while i < n
            invariant
                i <= n,
                self.cells@.len() == n,
                self.width == old(self).width,
                self.height == old(self).height,
                forall|k: int| 0 <= k < i ==> self.cells@[k] == cell,
            decreases n - i,
        {
            self.cells[i] = cell;
            i += 1;
        }
        proof {
            assert(self@.cells =~= old(self)@.filled(cell).cells);
            assert(self@ =~= old(self)@.filled(cell));
        }
    }

    /// Flips the state of every cell.
    pub fn invert(&mut self)
        requires
            old(self)@.wf(),
        ensures
            final(self)@ == old(self)@.inverted(),
            final(self)@.wf(),
    {
        let n = self.cells.len();
        let mut i: usize = 0;
        while i < n
            invariant
                i <= n,
                self.cells@.len() == n,
                self.width == old(self).width,
                self.height == old(self).height,
                forall|k: int| 0 <= k < i ==> self.cells@[k] == flipped(old(self).cells@[k]),
                forall|k: int| i <= k < n ==> self.cells@[k] == old(self).cells@[k],
            decreases n - i,
        {
            let c = self.cells[i];
            self.cells[i] = c.flip();
            i += 1;
        }
        proof {
            assert(self@.cells =~= old(self)@.inverted().cells);
            assert(self@ =~= old(self)@.inverted());
        }
    }

    /// Assigns every cell a fresh pseudo-random state. The dimensions are
    /// kept; nothing is promised of the resulting pattern.
    pub fn fill_random(&mut self)
        requires
            old(self)@.wf(),
        ensures
            final(self)@.width == old(self)@.width,
            final(self)@.height == old(self)@.height,
            final(self)@.wf(),
    {
        let n = self.cells.len();
        let mut i: usize = 0;
        while i < n
            invariant
                i <= n,
                self.cells@.len() == n,
                self.width == old(self).width,
                self.height == old(self).height,
            decreases n - i,
        {
            let bits = random_u32();
            self.cells[i] = random_cell(bits);
            i += 1;
        }
    }

    /// Replaces the grid with a new all-dead grid of the new dimensions; the
    /// previous pattern is discarded.
    pub fn resize(&mut self, new_width: usize, new_height: usize)
        requires
            new_width * new_height <= usize::MAX,
        ensures
            final(self)@ == GridView::dead_grid(new_width as nat, new_height as nat),
            final(self)@.wf(),
    {
        *self = Universe::new(new_width, new_height);
    }

    /// The number of live cells among the eight neighbours of `(x, y)`;
    /// coordinates outside the grid are excluded from the count.
    #[verifier::rlimit(50)]
    pub fn live_neighbour_count(&self, x: usize, y: usize) -> (n: u8)
        requires
            self@.wf(),
            x < self@.width,
            y < self@.height,
        ensures
            n as int == self@.live_neighbours(x as int, y as int),
            n <= 8,
    {
        let ghost gx = x as int;
        let ghost gy = y as int;
        let mut n: u8 = 0;
        if x > 0 && y > 0 && self.get(x - 1, y - 1) == Cell::Alive {
            n += 1;
        }
        assert(n as int == ind(self@.alive_at(gx - 1, gy - 1)));
        if y > 0 && self.get(x, y - 1) == Cell::Alive {
            n += 1;
        }
        assert(n as int == ind(self@.alive_at(gx - 1, gy - 1)) + ind(self@.alive_at(gx, gy - 1)));
        if x + 1 < self.width && y > 0 && self.get(x + 1, y - 1) == Cell::Alive {
            n += 1;
        }
        assert(n as int == ind(self@.alive_at(gx - 1, gy - 1)) + ind(self@.alive_at(gx, gy - 1))
            + ind(self@.alive_at(gx + 1, gy - 1)));
        if x > 0 && self.get(x - 1, y) == Cell::Alive {
            n += 1;
        }
        assert(n as int == ind(self@.alive_at(gx - 1, gy - 1)) + ind(self@.alive_at(gx, gy - 1))
            + ind(self@.alive_at(gx + 1, gy - 1)) + ind(self@.alive_at(gx - 1, gy)));
        if x + 1 < self.width && self.get(x + 1, y) == Cell::Alive {
            n += 1;
        }
        assert(n as int == ind(self@.alive_at(gx - 1, gy - 1)) + ind(self@.alive_at(gx, gy - 1))
            + ind(self@.alive_at(gx + 1, gy - 1)) + ind(self@.alive_at(gx - 1, gy)) + ind(
        self@.alive_at(gx + 1, gy)));
        if x > 0 && y + 1 < self.height && self.get(x - 1, y + 1) == Cell::Alive {
            n += 1;
        }
        assert(n as int == ind(self@.alive_at(gx - 1, gy - 1)) + ind(self@.alive_at(gx, gy - 1))
            + ind(self@.alive_at(gx + 1, gy - 1)) + ind(self@.alive_at(gx - 1, gy)) + ind(
        self@.alive_at(gx + 1, gy)) + ind(self@.alive_at(gx - 1, gy + 1)));
        if y + 1 < self.height && self.get(x, y + 1) == Cell::Alive {
            n += 1;
        }
        assert(n as int == ind(self@.alive_at(gx - 1, gy - 1)) + ind(self@.alive_at(gx, gy - 1))
            + ind(self@.alive_at(gx + 1, gy - 1)) + ind(self@.alive_at(gx - 1, gy)) + ind(
        self@.alive_at(gx + 1, gy)) + ind(self@.alive_at(gx - 1, gy + 1)) + ind(
        self@.alive_at(gx, gy + 1)));
        if x + 1 < self.width && y + 1 < self.height && self.get(x + 1, y + 1) == Cell::Alive {
            n += 1;
        }
        assert(n as int == self@.live_neighbours(gx, gy));
        n
    }

    /// Computes the next generation into a fresh grid, reading only the
    /// current one, and returns it. The dimensions are preserved.
    pub fn advance_generation(&self) -> (r: Universe)
        requires
            self@.wf(),
        ensures
            r@ == self@.advanced(),
            r@.wf(),
            r@.width == self@.width,
            r@.height == self@.height,
    {
        let n = self.cells.len();
        let mut cells: Vec<Cell> = Vec::new();
        let mut i: usize = 0;
        while i < n
            invariant
                i <= n,
                self@.wf(),
                n == self@.width * self@.height,
                cells@.len() == i,
                forall|k: int| 0 <= k < i ==> cells@[k] == self@.advanced().cells[k],
            decreases n - i,
        {
            proof {
                lemma_row_major_split(self@.width as int, self@.height as int, i as int);
            }
            let x = i % self.width;
            let y = i / self.width;
            let c = self.get(x, y);
            let count = self.live_neighbour_count(x, y);
            let next = c.calculate_next_iteration(count);
            cells.push(next);
            i += 1;
        }
        let r = Universe { width: self.width, height: self.height, cells };
        proof {
            assert(r@.cells =~= self@.advanced().cells);
            assert(r@ =~= self@.advanced());
        }
        r
    }
}

/// No coordinate of an all-dead well-formed grid counts as alive.
proof fn lemma_all_dead_not_alive_at(g: GridView, x: int, y: int)
    requires
        g.wf(),
        g.all_cells_are(Cell::Dead),
    ensures
        !g.alive_at(x, y),
{
    if g.in_bounds(x, y) {
        lemma_row_major_bounds(g.width as int, g.height as int, x, y);
    }
}

/// In an all-dead well-formed grid every live-neighbour count is zero.
pub proof fn lemma_all_dead_no_neighbours(g: GridView, x: int, y: int)
    requires
        g.wf(),
        g.all_cells_are(Cell::Dead),
    ensures
        g.live_neighbours(x, y) == 0,
{
    lemma_all_dead_not_alive_at(g, x - 1, y - 1);
    lemma_all_dead_not_alive_at(g, x, y - 1);
    lemma_all_dead_not_alive_at(g, x + 1, y - 1);
    lemma_all_dead_not_alive_at(g, x - 1, y);
    lemma_all_dead_not_alive_at(g, x + 1, y);
    lemma_all_dead_not_alive_at(g, x - 1, y + 1);
    lemma_all_dead_not_alive_at(g, x, y + 1);
    lemma_all_dead_not_alive_at(g, x + 1, y + 1);
}

/// Advancing a grid never changes its dimensions.
pub proof fn lemma_advance_preserves_dimensions(g: GridView)
    ensures
        g.advanced().width == g.width,
        g.advanced().height == g.height,
        g.wf() ==> g.advanced().wf(),
{
}

/// A cell with exactly 3 live neighbours is alive in the next generation,
/// whatever its current state.
pub proof fn lemma_birth_rule(g: GridView, x: int, y: int)
    requires
        g.live_neighbours(x, y) == 3,
    ensures
        g.next_cell(x, y) is Alive,
{
}

/// A dead cell whose live-neighbour count is not 3 stays dead.
pub proof fn lemma_dead_stays_dead(g: GridView, x: int, y: int)
    requires
        g.cell(x, y) is Dead,
        g.live_neighbours(x, y) != 3,
    ensures
        g.next_cell(x, y) is Dead,
{
}

/// An alive cell whose live-neighbour count is neither 2 nor 3 dies.
pub proof fn lemma_death_rule(g: GridView, x: int, y: int)
    requires
        g.cell(x, y) is Alive,
        g.live_neighbours(x, y) != 2,
        g.live_neighbours(x, y) != 3,
    ensures
        g.next_cell(x, y) is Dead,
{
}

/// Pointwise reading of the next generation: inside a well-formed grid, the
/// advanced grid holds exactly the rule applied at each coordinate.
pub proof fn lemma_advanced_cell(g: GridView, x: int, y: int)
    requires
        g.wf(),
        g.in_bounds(x, y),
    ensures
        g.advanced().cell(x, y) == g.next_cell(x, y),
{
    lemma_row_major_bounds(g.width as int, g.height as int, x, y);
}

/// The neighbour rule read off the advanced grid: a coordinate with exactly
/// 3 live neighbours is alive in the next generation whatever it held, a
/// dead cell without exactly 3 stays dead, and a live cell with a count
/// other than 2 or 3 dies.
pub proof fn lemma_rule_on_advanced(g: GridView, x: int, y: int)
    requires
        g.wf(),
        g.in_bounds(x, y),
    ensures
        g.live_neighbours(x, y) == 3 ==> g.advanced().cell(x, y) is Alive,
        g.cell(x, y) is Dead && g.live_neighbours(x, y) != 3 ==> g.advanced().cell(x, y) is Dead,
        g.cell(x, y) is Alive && g.live_neighbours(x, y) != 2 && g.live_neighbours(x, y) != 3
            ==> g.advanced().cell(x, y) is Dead,
{
    lemma_advanced_cell(g, x, y);
}

/// No spontaneous life: advancing an all-dead well-formed grid yields an
/// all-dead grid.
pub proof fn lemma_no_spontaneous_life(g: GridView)
    requires
        g.wf(),
        g.all_cells_are(Cell::Dead),
    ensures
        g.advanced().all_cells_are(Cell::Dead),
{
    let a = g.advanced();
    assert forall|i: int| 0 <= i < a.cells.len() implies a.cells[i] == Cell::Dead by {
        lemma_row_major_split(g.width as int, g.height as int, i);
        let x = i % (g.width as int);
        let y = i / (g.width as int);
        lemma_all_dead_no_neighbours(g, x, y);
        lemma_row_major_bounds(g.width as int, g.height as int, x, y);
        assert(g.cell(x, y) == Cell::Dead);
    }
}

/// Inverting a grid twice yields the original grid.
pub proof fn lemma_invert_involutive(g: GridView)
    ensures
        g.inverted().inverted() == g,
{
    assert(g.inverted().inverted().cells =~= g.cells);
    assert(g.inverted().inverted() =~= g);
}

} // verus!
