//! The snake: an ordered body of cells, head first, and its heading.

use crate::direction::Direction;
use crate::display::{fill_all, filled, Command, Paint};
use crate::grid::{
    cell_on_grid, held, hold, is_cell_on_grid, step_back, step_forward, stepped_back,
    stepped_forward, Cell, GRID_SIZE, SQUARE_SIZE,
};
use std::collections::VecDeque;
use vstd::prelude::*;

verus! {

/// The cell one step from `head` in direction `d`. The coordinate along the
/// move steps by one square and wraps; the other one is reduced modulo the
/// grid size.
pub open spec fn moved(head: Cell, d: Direction) -> Cell {
    match d {
        Direction::Up => (held(head.0), stepped_back(head.1)),
        Direction::Down => (held(head.0), stepped_forward(head.1)),
        Direction::Left => (stepped_back(head.0), held(head.1)),
        Direction::Right => (stepped_forward(head.0), held(head.1)),
    }
}

/// What a body must be: at least one cell, and every cell on the grid.
pub open spec fn valid_body(cells: Seq<Cell>) -> bool {
    &&& cells.len() >= 1
    &&& forall|i: int| 0 <= i < cells.len() ==> cell_on_grid(#[trigger] cells[i])
}

/// The body after one tick in direction `d`: a new head in front of the old
/// body, nothing removed.
pub open spec fn ticked(cells: Seq<Cell>, d: Direction) -> Seq<Cell> {
    seq![moved(cells[0], d)] + cells
}

/// The body without its last cell.
pub open spec fn shrunk(cells: Seq<Cell>) -> Seq<Cell> {
    cells.drop_last()
}

/// `head` lies on a cell of the body other than the first.
pub open spec fn bites(cells: Seq<Cell>, head: Cell) -> bool {
    exists|i: int| 1 <= i < cells.len() && cells[i] == head
}

/// The body of a snake at the start of a game: three cells in a column, the
/// head at the grid's centre and each further cell one square below.
pub open spec fn fresh_body() -> Seq<Cell> {
    seq![
        ((GRID_SIZE / 2) as u32, (GRID_SIZE / 2) as u32),
        ((GRID_SIZE / 2) as u32, (GRID_SIZE / 2 + SQUARE_SIZE) as u32),
        ((GRID_SIZE / 2) as u32, (GRID_SIZE / 2 + 2 * SQUARE_SIZE) as u32),
    ]
}

/// Moves one step from `head` in direction `d`.
pub fn advance(head: &Cell, d: Direction) -> (r: Cell)
    requires
        cell_on_grid(*head),
    ensures
        r == moved(*head, d),
        cell_on_grid(r),
{
    match d {
        Direction::Up => (hold(head.0), step_back(head.1)),
        Direction::Down => (hold(head.0), step_forward(head.1)),
        Direction::Left => (step_back(head.0), hold(head.1)),
        Direction::Right => (step_forward(head.0), hold(head.1)),
    }
}

/// A snake. The front of `body` is the head, the back is the tail.
pub struct Snake {
    direction: Direction,
    body: VecDeque<Cell>,
}

impl Snake {
    /// The body, head first.
    pub closed spec fn cells(&self) -> Seq<Cell> {
        self.body@
    }

    /// The current heading.
    pub closed spec fn heading(&self) -> Direction {
        self.direction
    }

    /// The invariant of a snake: its body is never empty and lies on the grid.
    pub open spec fn wf(&self) -> bool {
        valid_body(self.cells())
    }

    /// A snake at the start of a game: the fresh body, heading up.
    pub fn new() -> (s: Snake)
        ensures
            s.cells() == fresh_body(),
            s.heading() == Direction::Up,
            s.wf(),
            s.cells().len() == 3,
            s.cells()[0] == ((GRID_SIZE / 2) as u32, (GRID_SIZE / 2) as u32),
            s.cells().no_duplicates(),
    {
        let mut body: VecDeque<Cell> = VecDeque::new();
        body.push_back((GRID_SIZE / 2, GRID_SIZE / 2));
        body.push_back((GRID_SIZE / 2, GRID_SIZE / 2 + SQUARE_SIZE));
        body.push_back((GRID_SIZE / 2, GRID_SIZE / 2 + 2 * SQUARE_SIZE));
        assert(body@ =~= fresh_body());
        Snake { direction: Direction::Up, body }
    }

    /// A snake with the given heading and body, head first. There is none for
    /// an empty body or for a cell off the grid.
    pub fn from_cells(direction: Direction, cells: &Vec<Cell>) -> (r: Option<Snake>)
        ensures
            r.is_some() == valid_body(cells@),
            match r {
                Some(s) => s.cells() == cells@ && s.heading() == direction && s.wf(),
                None => true,
            },
    {
        if cells.len() == 0 {
            return None;
        }
        let mut body: VecDeque<Cell> = VecDeque::new();
        let mut i: usize = 0;
        while i < cells.len()
            invariant
                i <= cells.len(),
                body@ == cells@.take(i as int),
                forall|j: int| 0 <= j < i ==> cell_on_grid(#[trigger] cells@[j]),
            decreases cells.len() - i,
        {
            if !is_cell_on_grid(&cells[i]) {
                return None;
            }
            body.push_back(cells[i]);
            assert(body@ =~= cells@.take(i + 1));
            i += 1;
        }
        assert(body@ =~= cells@);
        Some(Snake { direction, body })
    }

    /// The head: the front cell of the body.
    pub fn head(&self) -> (r: &Cell)
        requires
            self.wf(),
        ensures
            *r == self.cells()[0],
            cell_on_grid(*r),
    {
        &self.body[0]
    }

    /// The current heading.
    pub fn direction(&self) -> (r: Direction)
        ensures
            r == self.heading(),
    {
        self.direction
    }

    /// The number of cells of the body.
    pub fn len(&self) -> (r: usize)
        ensures
            r == self.cells().len(),
    {
        self.body.len()
    }

    /// The body as a vector, head first.
    pub fn body(&self) -> (r: Vec<Cell>)
        ensures
            r@ == self.cells(),
    {
        let mut out: Vec<Cell> = Vec::new();
        let mut i: usize = 0;
        while i < self.body.len()
            invariant
                i <= self.body@.len(),
                out@ == self.body@.take(i as int),
            decreases self.body@.len() - i,
        {
            out.push(self.body[i]);
            assert(out@ =~= self.body@.take(i + 1));
            i += 1;
        }
        assert(out@ =~= self.body@);
        out
    }

    /// The commands that draw the snake: one fill for each cell, head first.
    pub fn render(&self) -> (out: Vec<Command>)
        ensures
            out@ == filled(Paint::Snake, self.cells()),
    {
        let cells = self.body();
        let mut out: Vec<Command> = Vec::new();
        fill_all(&mut out, Paint::Snake, &cells);
        assert(out@ =~= filled(Paint::Snake, cells@));
        out
    }

    /// Tells whether `head` lies on a cell of the body other than the first.
    pub fn hits_body(&self, head: &Cell) -> (r: bool)
        ensures
            r == bites(self.cells(), *head),
    {
        let mut i: usize = 1;
        while i < self.body.len()
            invariant
                1 <= i,
                forall|j: int| 1 <= j < i && j < self.body@.len() ==> self.body@[j] != *head,
            decreases self.body@.len() - i,
        {
            let segment = &self.body[i];
            if segment.0 == head.0 && segment.1 == head.1 {
                return true;
            }
            i += 1;
        }
        false
    }

    /// Takes the heading `direction` and puts a new head, one step from the
    /// old one in that direction, in front of the body. The tail stays: the
    /// body is one cell longer.
    pub fn tick(&mut self, direction: Direction)
        requires
            old(self).wf(),
        ensures
            final(self).cells() == ticked(old(self).cells(), direction),
            final(self).cells().len() == old(self).cells().len() + 1,
            final(self).heading() == direction,
            final(self).wf(),
    {
        self.direction = direction;
        let new_head = advance(&self.body[0], direction);
        self.body.push_front(new_head);
    }

    /// Removes the tail, the last cell of the body, and returns it. The body
    /// must hold a cell besides the tail, so that it is not left empty.
    pub fn shrink_tail(&mut self) -> (tail: Cell)
        requires
            old(self).wf(),
            old(self).cells().len() >= 2,
        ensures
            final(self).cells() == shrunk(old(self).cells()),
            final(self).cells().len() == old(self).cells().len() - 1,
            tail == old(self).cells().last(),
            final(self).heading() == old(self).heading(),
            final(self).wf(),
    {
        self.body.pop_back().unwrap()
    }
}

/// A tick makes the body exactly one cell longer.
pub proof fn tick_grows_by_one(cells: Seq<Cell>, d: Direction)
    ensures
        ticked(cells, d).len() == cells.len() + 1,
{
}

/// A tick followed by the removal of the tail leaves the length of the body
/// as it was, and the cells that stay are the new head and the old body
/// without its tail.
pub proof fn tick_then_shrink_keeps_length(cells: Seq<Cell>, d: Direction)
    requires
        cells.len() >= 1,
    ensures
        shrunk(ticked(cells, d)).len() == cells.len(),
        shrunk(ticked(cells, d)) == seq![moved(cells[0], d)] + cells.drop_last(),
{
    assert(shrunk(ticked(cells, d)) =~= seq![moved(cells[0], d)] + cells.drop_last());
}

/// A step off an edge comes back in on the other side. Up from the top row
/// and left from the first column land on the far edge itself; down from the
/// last row and right from the last column land on 0.
pub proof fn step_wraps_at_edges(x: u32, y: u32)
    ensures
        moved((x, 0), Direction::Up).1 == GRID_SIZE,
        moved((0, y), Direction::Left).0 == GRID_SIZE,
        moved((x, (GRID_SIZE - SQUARE_SIZE) as u32), Direction::Down).1 == 0,
        moved(((GRID_SIZE - SQUARE_SIZE) as u32, y), Direction::Right).0 == 0,
{
}

/// A step from a cell on the grid ends on a cell on the grid.
pub proof fn step_stays_on_grid(head: Cell, d: Direction)
    requires
        cell_on_grid(head),
    ensures
        cell_on_grid(moved(head, d)),
{
}

} // verus!
