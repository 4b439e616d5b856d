//! Food: one cell of the grid, placed by two random fractions.

use crate::display::{Command, Paint};
use crate::grid::{Cell, GRID_SIZE, SQUARE_SIZE};
use vstd::prelude::*;

verus! {

/// The denominator of a random fraction: a `u32` value `unit` stands for the
/// number `unit / UNIT_SCALE`, which lies in `[0, 1)`.
pub const UNIT_SCALE: u64 = 0x1_0000_0000;

/// The coordinate that the fraction `unit / UNIT_SCALE` picks: the fraction
/// times the number of squares along an edge, rounded down to a whole
/// square, in pixel units.
pub open spec fn coord_at(unit: u32) -> u32 {
    ((unit * GRID_SIZE) / (SQUARE_SIZE * UNIT_SCALE) * SQUARE_SIZE) as u32
}

/// A coordinate on which food can lie: a multiple of the square size, below
/// the grid size.
pub open spec fn in_field(c: u32) -> bool {
    c % SQUARE_SIZE == 0 && c < GRID_SIZE
}

/// Picks a coordinate by a random fraction.
pub fn random_coord(unit: u32) -> (r: u32)
    ensures
        r == coord_at(unit),
        in_field(r),
{
    let squares: u64 = (unit as u64 * GRID_SIZE as u64) / (SQUARE_SIZE as u64 * UNIT_SCALE);
    proof {
        random_coord_in_field(unit);
    }
    (squares as u32) * SQUARE_SIZE
}

/// One piece of food.
pub struct Food {
    location: Cell,
}

impl Food {
    /// The cell on which the food lies.
    pub closed spec fn position(&self) -> Cell {
        self.location
    }

    /// The invariant of food: it lies on a cell inside the grid.
    pub open spec fn wf(&self) -> bool {
        in_field(self.position().0) && in_field(self.position().1)
    }

    /// Food at the cell that two random fractions pick, one for each axis.
    /// Whether a snake lies there is not looked at.
    pub fn random(unit_x: u32, unit_y: u32) -> (f: Food)
        ensures
            f.position() == (coord_at(unit_x), coord_at(unit_y)),
            f.wf(),
    {
        Food { location: (random_coord(unit_x), random_coord(unit_y)) }
    }

    /// The cell on which the food lies.
    pub fn location(&self) -> (r: Cell)
        ensures
            r == self.position(),
    {
        self.location
    }

    /// The command that draws the food.
    pub fn render(&self) -> (r: Command)
        ensures
            r == Command::Fill(Paint::Food, self.position()),
    {
        Command::Fill(Paint::Food, self.location)
    }
}

/// Whatever the fraction, the coordinate it picks is a multiple of the
/// square size and lies in `[0, GRID_SIZE)`.
pub proof fn random_coord_in_field(unit: u32)
    ensures
        coord_at(unit) % SQUARE_SIZE == 0,
        0 <= coord_at(unit) < GRID_SIZE,
        (unit * GRID_SIZE) / (SQUARE_SIZE * UNIT_SCALE) < GRID_SIZE / SQUARE_SIZE,
{
    assert(SQUARE_SIZE * UNIT_SCALE == 42949672960);
    assert(unit * GRID_SIZE == unit * 400);
    assert(unit * 400 < 40 * 42949672960);
}

/// The coordinate is that of the square in which the fraction falls: the
/// fraction picks square `k` exactly when, scaled by the number of squares
/// along an edge, it lies in `[k, k + 1)`.
pub proof fn random_coord_picks_square(unit: u32, k: int)
    ensures
        coord_at(unit) == k * SQUARE_SIZE <==> k * UNIT_SCALE <= unit * (GRID_SIZE / SQUARE_SIZE)
            < (k + 1) * UNIT_SCALE,
{
    random_coord_in_field(unit);
    let q = (unit * 400) / 42949672960;
    assert(SQUARE_SIZE * UNIT_SCALE == 42949672960);
    assert(unit * GRID_SIZE == unit * 400);
    assert(unit * (GRID_SIZE / SQUARE_SIZE) == unit * 40);
    assert(k * UNIT_SCALE == k * 4294967296);
    assert((k + 1) * UNIT_SCALE == k * 4294967296 + 4294967296);
    assert(coord_at(unit) == q * 10);
    assert(q * 42949672960 <= unit * 400 < q * 42949672960 + 42949672960);
}

} // verus!
