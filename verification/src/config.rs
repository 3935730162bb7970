//! Fixed numbers of the game: grid size, spawn cells, points, lives and
//! durations. Durations are whole milliseconds.
use vstd::prelude::*;
use crate::ghost::GhostType;

verus! {

/// Width of the maze in tiles.
pub const WIDTH: usize = 28;

/// Height of the maze in tiles.
pub const HEIGHT: usize = 31;

/// Column of Pac-Man's spawn cell.
pub const PACMAN_COL: usize = 13;

/// Row of Pac-Man's spawn cell.
pub const PACMAN_ROW: usize = 23;

/// Where a ghost appears and which corner it retreats to.
#[derive(Clone, Copy, PartialEq, Eq, Structural, Debug)]
pub struct GhostSpawn {
    pub col: usize,
    pub row: usize,
    pub scatter_col: i32,
    pub scatter_row: i32,
}

/// Spawn cell and scatter corner of each ghost, as
/// (col, row, scatter_col, scatter_row).
pub open spec fn ghost_spawn_spec(t: GhostType) -> (int, int, int, int) {
    match t {
        GhostType::Blinky => (13, 11, 25, 0),
        GhostType::Pinky => (13, 13, 2, 0),
        GhostType::Inky => (11, 13, 27, 30),
        GhostType::Clyde => (15, 13, 0, 30),
    }
}

/// The spawn configuration of a ghost.
pub fn ghost_spawn(ghost_type: GhostType) -> (s: GhostSpawn)
    ensures
        s.col == ghost_spawn_spec(ghost_type).0,
        s.row == ghost_spawn_spec(ghost_type).1,
        s.scatter_col == ghost_spawn_spec(ghost_type).2,
        s.scatter_row == ghost_spawn_spec(ghost_type).3,
{
    match ghost_type {
        GhostType::Blinky => GhostSpawn { col: 13, row: 11, scatter_col: 25, scatter_row: 0 },
        GhostType::Pinky => GhostSpawn { col: 13, row: 13, scatter_col: 2, scatter_row: 0 },
        GhostType::Inky => GhostSpawn { col: 11, row: 13, scatter_col: 27, scatter_row: 30 },
        GhostType::Clyde => GhostSpawn { col: 15, row: 13, scatter_col: 0, scatter_row: 30 },
    }
}

/// Points for eating a pellet.
pub const PELLET: u32 = 10;

/// Points for eating a power pellet.
pub const POWER_PELLET: u32 = 50;

/// Number of entries in the ghost combo table.
pub const GHOST_COMBO_LEN: usize = 4;

/// Points for the ghost eaten at position `i` of the combo table:
/// 200, 400, 800, 1600.
pub open spec fn ghost_combo_spec(i: int) -> int {
    if i == 0 {
        200
    } else if i == 1 {
        400
    } else if i == 2 {
        800
    } else {
        1600
    }
}

/// The ghost combo table entry `i`.
pub fn ghost_combo(i: usize) -> (p: u32)
    requires
        i < GHOST_COMBO_LEN,
    ensures
        p == ghost_combo_spec(i as int),
{
    if i == 0 {
        200
    } else if i == 1 {
        400
    } else if i == 2 {
        800
    } else {
        1600
    }
}

/// Time before the ghosts leave their start mode.
pub const GHOST_START_DELAY_MS: u64 = 3000;

/// How long a ghost stays frightened after a power pellet.
pub const FRIGHTENED_DURATION_MS: u64 = 6000;

/// How long Pac-Man cannot be caught after a respawn.
pub const INVULNERABILITY_AFTER_RESPAWN_MS: i64 = 1000;

/// Lives at the start of a game.
pub const INITIAL_LIVES: u32 = 3;

/// Level at the start of a game.
pub const INITIAL_LEVEL: u32 = 1;

/// How long the level-complete screen is shown.
pub const LEVEL_COMPLETE_DURATION_MS: u64 = 3000;

/// How long the game-over screen is shown.
pub const GAME_OVER_DURATION_MS: u64 = 5000;

/// Number of power pellets in a level.
pub const POWER_PELLET_COUNT: usize = 4;

/// The power pellet cells (col, row), one near each corner.
pub open spec fn power_pellet_cell_spec(i: int) -> (int, int) {
    if i == 0 {
        (1, 3)
    } else if i == 1 {
        (26, 3)
    } else if i == 2 {
        (1, 23)
    } else {
        (26, 23)
    }
}

/// Whether (col, row) is one of the power pellet cells.
pub open spec fn is_power_pellet_cell_spec(col: int, row: int) -> bool {
    exists|i: int| 0 <= i < POWER_PELLET_COUNT && #[trigger] power_pellet_cell_spec(i) == (col, row)
}

/// The power pellet cell `i` as (col, row).
pub fn power_pellet_cell(i: usize) -> (c: (i32, i32))
    requires
        i < POWER_PELLET_COUNT,
    ensures
        c.0 == power_pellet_cell_spec(i as int).0,
        c.1 == power_pellet_cell_spec(i as int).1,
{
    if i == 0 {
        (1, 3)
    } else if i == 1 {
        (26, 3)
    } else if i == 2 {
        (1, 23)
    } else {
        (26, 23)
    }
}

/// Whether (col, row) is one of the power pellet cells.
pub fn is_power_pellet_cell(col: i32, row: i32) -> (b: bool)
    ensures
        b == is_power_pellet_cell_spec(col as int, row as int),
{
    let mut i: usize = 0;
    while i < POWER_PELLET_COUNT
        invariant
            i <= POWER_PELLET_COUNT,
            forall|j: int| 0 <= j < i ==> #[trigger] power_pellet_cell_spec(j) != (col as int, row as int),
        decreases POWER_PELLET_COUNT - i,
    {
        let (pc, pr) = power_pellet_cell(i);
        if pc == col && pr == row {
            assert(power_pellet_cell_spec(i as int) == (col as int, row as int));
            return true;
        }
        i += 1;
    }
    false
}

} // verus!
