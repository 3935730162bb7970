//! Ghost identity and mode markers.
use vstd::prelude::*;
use crate::grid_cell::GridCell;

verus! {

#[derive(Clone, Copy, PartialEq, Eq, Structural, Debug)]
pub enum GhostMode {
    Start,
    Scatter,
    Chase,
    Frightened,
}

#[derive(Clone, Copy, PartialEq, Eq, Structural, Debug)]
pub enum GhostType {
    Blinky,
    Pinky,
    Inky,
    Clyde,
}

/// Always present on ghost entities. Carries static identity data.
#[derive(Clone, Copy, PartialEq, Eq, Structural, Debug)]
pub struct GhostIdentity {
    pub ghost_type: GhostType,
    pub scatter_corner: GridCell,
}

impl GhostIdentity {
    pub fn new(ghost_type: GhostType, scatter_corner: GridCell) -> (g: GhostIdentity)
        ensures
            g.ghost_type == ghost_type,
            g.scatter_corner == scatter_corner,
    {
        GhostIdentity { ghost_type, scatter_corner }
    }
}

/// Marker of a ghost in chase mode.
#[derive(Clone, Copy, PartialEq, Eq, Structural, Debug)]
pub struct GhostChase;

/// Marker of a ghost in scatter mode.
#[derive(Clone, Copy, PartialEq, Eq, Structural, Debug)]
pub struct GhostScatter;

/// Marker of a frightened ghost, with the milliseconds it stays frightened.
#[derive(Clone, Copy, PartialEq, Eq, Structural, Debug)]
pub struct GhostFrightened {
    pub timer: u64,
}

/// What the systems read of a ghost's navigation agent.
#[derive(Clone, Copy, PartialEq, Eq, Structural, Debug)]
pub struct NavAgentInfo {
    /// The agent has no path left to follow.
    pub is_idle: bool,
    /// The cell the agent stands on.
    pub current_cell: GridCell,
}

/// What the systems read of one ghost entity.
#[derive(Clone, Copy, PartialEq, Eq, Structural, Debug)]
pub struct GhostSnapshot {
    pub entity_id: u32,
    pub identity: GhostIdentity,
    /// The mode given by the ghost's marker (none means `Start`).
    pub mode: GhostMode,
    /// The navigation agent, when the entity has one.
    pub agent: Option<NavAgentInfo>,
}

} // verus!
