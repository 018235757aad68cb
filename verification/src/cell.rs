//! The two-state cell and the Conway next-state rule.

use vstd::prelude::*;

verus! {

/// One grid cell: either alive or dead.
#[derive(Clone, Copy, Debug, PartialEq, Eq, Structural)]
pub enum Cell {
    Alive,
    Dead,
}

/// The standard Conway rule: an alive cell survives with exactly 2 or 3 live
/// neighbours, a dead cell is born with exactly 3 live neighbours, every
/// other combination yields a dead cell.
pub open spec fn next_state(c: Cell, live_neighbours: int) -> Cell {
    match c {
        Cell::Alive => if live_neighbours == 2 || live_neighbours == 3 {
            Cell::Alive
        } else {
            Cell::Dead
        },
        Cell::Dead => if live_neighbours == 3 {
            Cell::Alive
        } else {
            Cell::Dead
        },
    }
}

/// The opposite state: alive becomes dead and dead becomes alive.
pub open spec fn flipped(c: Cell) -> Cell {
    match c {
        Cell::Alive => Cell::Dead,
        Cell::Dead => Cell::Alive,
    }
}

impl Cell {
    /// Computes the state this cell takes in the next generation, given its
    /// live-neighbour count.
    pub fn calculate_next_iteration(&self, neighbours: u8) -> (r: Cell)
        ensures
            r == next_state(*self, neighbours as int),
    {
        match *self {
            Cell::Alive => if neighbours == 2 || neighbours == 3 {
                Cell::Alive
            } else {
                Cell::Dead
            },
            Cell::Dead => if neighbours == 3 {
                Cell::Alive
            } else {
                Cell::Dead
            },
        }
    }

    /// Returns the opposite state.
    pub fn flip(&self) -> (r: Cell)
        ensures
            r == flipped(*self),
    {
        match *self {
            Cell::Alive => Cell::Dead,
            Cell::Dead => Cell::Alive,
        }
    }
}

/// Flipping a cell twice yields the original cell.
pub proof fn lemma_flip_involutive(c: Cell)
    ensures
        flipped(flipped(c)) == c,
{
}

} // verus!
