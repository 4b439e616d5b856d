//! Display commands: what a host is asked to do to show the game.

use crate::grid::Cell;
use vstd::prelude::*;

verus! {

/// The colour of a filled square, named by what the square shows.
#[derive(Clone, Copy, Debug, PartialEq, Eq)]
pub enum Paint {
    Food,
    Snake,
}

/// One thing for the host to do.
#[derive(Clone, Copy, Debug, PartialEq, Eq)]
pub enum Command {
    /// Tell the player that the snake bit itself.
    Alert,
    /// Erase the square at this cell.
    Clear(Cell),
    /// Fill the square at this cell with this colour.
    Fill(Paint, Cell),
}

/// The text of the alert.
pub const BITE_MESSAGE: &'static str = "You Bit Yourself!";

/// One `Clear` for each cell, in order.
pub open spec fn cleared(cells: Seq<Cell>) -> Seq<Command> {
    Seq::new(cells.len(), |i: int| Command::Clear(cells[i]))
}

/// One `Fill` in the given colour for each cell, in order.
pub open spec fn filled(paint: Paint, cells: Seq<Cell>) -> Seq<Command> {
    Seq::new(cells.len(), |i: int| Command::Fill(paint, cells[i]))
}

/// Appends one `Clear` for each cell.
pub fn clear_all(out: &mut Vec<Command>, cells: &Vec<Cell>)
    ensures
        final(out)@ == old(out)@ + cleared(cells@),
{
    let mut i: usize = 0;
    while i < cells.len()
        invariant
            i <= cells.len(),
            out@ == old(out)@ + cleared(cells@.take(i as int)),
        decreases cells.len() - i,
    {
        out.push(Command::Clear(cells[i]));
        assert(out@ =~= old(out)@ + cleared(cells@.take(i + 1)));
        i += 1;
    }
    assert(cells@.take(cells.len() as int) =~= cells@);
}

/// Appends one `Fill` in the given colour for each cell.
pub fn fill_all(out: &mut Vec<Command>, paint: Paint, cells: &Vec<Cell>)
    ensures
        final(out)@ == old(out)@ + filled(paint, cells@),
{
    let mut i: usize = 0;
    while i < cells.len()
        invariant
            i <= cells.len(),
            out@ == old(out)@ + filled(paint, cells@.take(i as int)),
        decreases cells.len() - i,
    {
        out.push(Command::Fill(paint, cells[i]));
        assert(out@ =~= old(out)@ + filled(paint, cells@.take(i + 1)));
        i += 1;
    }
    assert(cells@.take(cells.len() as int) =~= cells@);
}

} // verus!
