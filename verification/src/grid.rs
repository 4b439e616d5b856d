//! The grid: its two constants and the arithmetic of one step along an axis.

use vstd::prelude::*;

verus! {

/// Edge length of the playing field, in pixel units.
pub const GRID_SIZE: u32 = 400;

/// Edge length of one cell, which is also the length of one step.
pub const SQUARE_SIZE: u32 = 10;

/// The pixel anchor of one cell: `(x, y)`.
pub type Cell = (u32, u32);

/// A coordinate that a snake can stand on: a multiple of the square size, up
/// to and including the far edge (which a step off the near edge reaches).
pub open spec fn on_grid(c: u32) -> bool {
    c % SQUARE_SIZE == 0 && c <= GRID_SIZE
}

/// Both coordinates of the cell are on the grid.
pub open spec fn cell_on_grid(cell: Cell) -> bool {
    on_grid(cell.0) && on_grid(cell.1)
}

/// The coordinate of the axis that a move does not run along.
pub open spec fn held(c: u32) -> u32 {
    c % GRID_SIZE
}

/// One step towards the near edge; from 0 the step lands on the far edge.
pub open spec fn stepped_back(c: u32) -> u32 {
    if c == 0 {
        GRID_SIZE
    } else {
        ((c - SQUARE_SIZE) % (GRID_SIZE as int)) as u32
    }
}

/// One step towards the far edge, wrapped modulo the grid size.
pub open spec fn stepped_forward(c: u32) -> u32 {
    ((c + SQUARE_SIZE) % (GRID_SIZE as int)) as u32
}

/// Tells whether a coordinate is on the grid.
pub fn is_on_grid(c: u32) -> (r: bool)
    ensures
        r == on_grid(c),
{
    c % SQUARE_SIZE == 0 && c <= GRID_SIZE
}

/// Tells whether both coordinates of a cell are on the grid.
pub fn is_cell_on_grid(cell: &Cell) -> (r: bool)
    ensures
        r == cell_on_grid(*cell),
{
    is_on_grid(cell.0) && is_on_grid(cell.1)
}

/// The coordinate kept by a move along the other axis.
pub fn hold(c: u32) -> (r: u32)
    ensures
        r == held(c),
        on_grid(c) ==> on_grid(r) && r < GRID_SIZE,
{
    c % GRID_SIZE
}

/// Steps one square towards the near edge.
pub fn step_back(c: u32) -> (r: u32)
    requires
        on_grid(c),
    ensures
        r == stepped_back(c),
        on_grid(r),
        c == 0 ==> r == GRID_SIZE,
        c != 0 ==> r == c - SQUARE_SIZE,
{
    if c == 0 {
        GRID_SIZE
    } else {
        (c - SQUARE_SIZE) % GRID_SIZE
    }
}

/// Steps one square towards the far edge.
pub fn step_forward(c: u32) -> (r: u32)
    requires
        on_grid(c),
    ensures
        r == stepped_forward(c),
        on_grid(r),
        r < GRID_SIZE,
        c < GRID_SIZE - SQUARE_SIZE ==> r == c + SQUARE_SIZE,
        c == GRID_SIZE - SQUARE_SIZE ==> r == 0,
        c == GRID_SIZE ==> r == SQUARE_SIZE,
{
    (c + SQUARE_SIZE) % GRID_SIZE
}

} // verus!
