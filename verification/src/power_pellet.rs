use vstd::prelude::*;
use crate::grid_cell::GridCell;

verus! {

/// A power pellet lying on a cell.
#[derive(Clone, Copy, PartialEq, Eq, Structural, Debug)]
pub struct PowerPellet {
    pub cell: GridCell,
}

impl PowerPellet {
    pub fn new(cell: GridCell) -> (p: PowerPellet)
        ensures
            p.cell == cell,
    {
        PowerPellet { cell }
    }
}

} // verus!
