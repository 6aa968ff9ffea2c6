//! Screen positions for rendering, computed from the terminal's size.
use vstd::prelude::*;

verus! {

/// A cursor position: column and row.
#[derive(Clone, Copy, Debug, PartialEq, Eq, Structural)]
pub struct Position {
    pub col: u16,
    pub row: u16,
}

/// The bottom-left position of a terminal of `rows` rows; the number of
/// columns does not move it.
pub fn bl(_cols: u16, rows: u16) -> (r: Position)
    ensures
        r == (Position { col: 0, row: rows }),
{
    Position { col: 0, row: rows }
}

/// The bottom-right position inset by `inset` columns, where a string of that
/// length ends at the right edge.
pub fn br(cols: u16, rows: u16, inset: u16) -> (r: Position)
    requires
        inset <= cols,
    ensures
        r == (Position { col: (cols - inset) as u16, row: rows }),
{
    Position { col: cols - inset, row: rows }
}

} // verus!
