//! Pluggable ghost steering.
use vstd::prelude::*;
use crate::grid_cell::GridCell;
use crate::maze::Maze;

verus! {

/// A steering strategy for a ghost, supplied by the game: picks the cell a
/// ghost standing on `current_cell` walks to next.
pub trait AIController: Send + Sync {
    /// `target` is a cell the strategy may pick for a ghost on
    /// `current_cell` in maze `nav`. A strategy that chooses at random may
    /// allow several.
    spec fn is_target(&self, current_cell: GridCell, nav: Maze, target: GridCell) -> bool;

    fn target_tile(&self, current_cell: GridCell, nav: &Maze) -> (target: GridCell)
        ensures
            self.is_target(current_cell, *nav, target),
    ;
}

} // verus!
