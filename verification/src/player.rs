use vstd::prelude::*;
use crate::grid_cell::{GridCell, abs_int};

verus! {

/// A movement direction on the grid.
#[derive(Clone, Copy, PartialEq, Eq, Structural, Debug)]
pub enum Direction {
    Still,
    Up,
    Down,
    Left,
    Right,
}

/// The (column, row) offset of one step in a direction; rows grow downward.
pub open spec fn delta_spec(d: Direction) -> (int, int) {
    match d {
        Direction::Up => (0, -1),
        Direction::Down => (0, 1),
        Direction::Left => (-1, 0),
        Direction::Right => (1, 0),
        Direction::Still => (0, 0),
    }
}

impl Direction {
    /// Returns (delta_col, delta_row). Row increases downward.
    pub fn delta(self) -> (d: (i32, i32))
        ensures
            d.0 == delta_spec(self).0,
            d.1 == delta_spec(self).1,
            self == Direction::Up ==> d == (0i32, -1i32),
            self == Direction::Down ==> d == (0i32, 1i32),
            self == Direction::Left ==> d == (-1i32, 0i32),
            self == Direction::Right ==> d == (1i32, 0i32),
            self == Direction::Still ==> d == (0i32, 0i32),
    {
        match self {
            Direction::Up => (0, -1),
            Direction::Down => (0, 1),
            Direction::Left => (-1, 0),
            Direction::Right => (1, 0),
            Direction::Still => (0, 0),
        }
    }
}

} // verus!

verus! {

/// Pac-Man's grid state. The invulnerability timer counts milliseconds;
/// Pac-Man is invulnerable while it is above zero.
#[derive(Clone, Copy, PartialEq, Eq, Structural, Debug)]
pub struct PlayerState {
    pub entity_id: u32,
    pub current_direction: Direction,
    pub queued_direction: Direction,
    pub current_cell: GridCell,
    pub target_cell: Option<GridCell>,
    pub invulnerability_timer: i64,
}

impl PlayerState {
    pub fn new(entity_id: u32, spawn_cell: GridCell) -> (p: PlayerState)
        ensures
            p.entity_id == entity_id,
            p.current_direction == Direction::Still,
            p.queued_direction == Direction::Still,
            p.current_cell == spawn_cell,
            p.target_cell is None,
            p.invulnerability_timer == 0,
    {
        PlayerState {
            entity_id,
            current_direction: Direction::Still,
            queued_direction: Direction::Still,
            current_cell: spawn_cell,
            target_cell: None,
            invulnerability_timer: 0,
        }
    }
}

/// Opposite directions cancel out, every direction but `Still` moves
/// exactly one cell along one axis, rows grow downward and columns to the
/// right.
pub proof fn lemma_delta_unit_steps(d: Direction)
    ensures
        delta_spec(Direction::Up).0 == 0 && delta_spec(Direction::Up).1 < 0,
        delta_spec(Direction::Right).0 > 0 && delta_spec(Direction::Right).1 == 0,
        d == Direction::Still <==> delta_spec(d) == (0int, 0int),
        d != Direction::Still ==> abs_int(delta_spec(d).0) + abs_int(delta_spec(d).1) == 1,
        delta_spec(Direction::Up).0 + delta_spec(Direction::Down).0 == 0,
        delta_spec(Direction::Up).1 + delta_spec(Direction::Down).1 == 0,
        delta_spec(Direction::Left).0 + delta_spec(Direction::Right).0 == 0,
        delta_spec(Direction::Left).1 + delta_spec(Direction::Right).1 == 0,
{
}

} // verus!
