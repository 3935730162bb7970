//! Events that the systems send each other.
use vstd::prelude::*;
use crate::grid_cell::GridCell;

verus! {

/// Pac-Man ate a power pellet.
#[derive(Clone, Copy, PartialEq, Eq, Structural, Debug)]
pub struct PowerPelletEatenEvent;

/// Pac-Man and a ghost stand on the same cell.
#[derive(Clone, Copy, PartialEq, Eq, Structural, Debug)]
pub struct PlayerGhostCollisionEvent {
    pub ghost_id: u32,
    pub is_frightened: bool,
}

/// Pac-Man ate a pellet.
#[derive(Clone, Copy, PartialEq, Eq, Structural, Debug)]
pub struct PelletEatenEvent;

/// The level ended, either cleared or by a game over.
#[derive(Clone, Copy, PartialEq, Eq, Structural, Debug)]
pub struct LevelCompleteEvent {
    pub is_game_over: bool,
}

/// Asks the navigation of an entity to walk to a target cell.
#[derive(Clone, Copy, PartialEq, Eq, Structural, Debug)]
pub struct MoveToEvent {
    pub entity_id: u32,
    pub target: GridCell,
}

} // verus!
