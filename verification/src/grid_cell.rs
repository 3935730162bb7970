use vstd::prelude::*;

verus! {

/// A cell of the tile grid, addressed by column and row (row grows downward).
#[derive(Clone, Copy, PartialEq, Eq, Structural, Debug)]
pub struct GridCell {
    pub col: i32,
    pub row: i32,
}

impl GridCell {
    pub fn new(col: i32, row: i32) -> (cell: GridCell)
        ensures
            cell.col == col,
            cell.row == row,
    {
        GridCell { col, row }
    }
}

/// The absolute value of an integer.
pub open spec fn abs_int(x: int) -> int {
    if x < 0 {
        -x
    } else {
        x
    }
}

/// Manhattan distance between two cells.
pub open spec fn manhattan_spec(a: GridCell, b: GridCell) -> int {
    abs_int(a.col - b.col) + abs_int(a.row - b.row)
}

} // verus!
