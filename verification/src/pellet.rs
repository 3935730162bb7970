use vstd::prelude::*;
use crate::grid_cell::GridCell;

verus! {

/// A pellet lying on a cell.
#[derive(Clone, Copy, PartialEq, Eq, Structural, Debug)]
pub struct Pellet {
    pub cell: GridCell,
}

impl Pellet {
    pub fn new(cell: GridCell) -> (p: Pellet)
        ensures
            p.cell == cell,
    {
        Pellet { cell }
    }
}

} // verus!
