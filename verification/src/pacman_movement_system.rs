//! Pac-Man's grid movement: at each tile centre the next target cell is
//! chosen from the queued and the current direction.
use vstd::prelude::*;
use crate::grid_cell::GridCell;
use crate::maze::{Maze, GRID_WIDTH};
use crate::player::{Direction, PlayerState, delta_spec};

verus! {

/// The system that moves Pac-Man between tile centres.
pub struct PacmanMovementSystem;

/// The grid outcome of one movement frame.
#[derive(Clone, Copy, PartialEq, Eq, Structural, Debug)]
pub struct FrameResult {
    pub new_current_cell: GridCell,
    pub new_target_cell: Option<GridCell>,
    pub new_current_dir: Direction,
    pub new_queued_dir: Direction,
    /// Pac-Man reached the old target and is placed on its centre.
    pub snap_to_target: bool,
    /// The direction Pac-Man moves in this frame; `Still` means no motion.
    pub move_dir: Direction,
}

/// One step from `c` in direction `dir` stays within `i32`.
pub open spec fn step_fits(c: GridCell, dir: Direction) -> bool {
    &&& i32::MIN <= c.col + delta_spec(dir).0 <= i32::MAX
    &&& i32::MIN <= c.row + delta_spec(dir).1 <= i32::MAX
}

/// The neighbour of `cell` in direction `dir`.
pub open spec fn step_spec(cell: GridCell, dir: Direction) -> GridCell {
    GridCell { col: (cell.col + delta_spec(dir).0) as i32, row: (cell.row + delta_spec(dir).1) as i32 }
}

/// Row `row`, read as a `usize`, is listed as a tunnel row.
pub open spec fn in_tunnel(tunnel_rows: Seq<usize>, row: i32) -> bool {
    exists|i: int| 0 <= i < tunnel_rows.len() && tunnel_rows[i] == row as usize
}

/// On a tunnel row, a cell just off one side of the grid is the edge cell on
/// the other side.
pub open spec fn wrap_col_spec(cell: GridCell, tunnel_rows: Seq<usize>) -> GridCell {
    if !in_tunnel(tunnel_rows, cell.row) {
        cell
    } else if cell.col < 0 {
        GridCell { col: (GRID_WIDTH - 1) as i32, row: cell.row }
    } else if cell.col >= GRID_WIDTH {
        GridCell { col: 0, row: cell.row }
    } else {
        cell
    }
}

/// The cell one step from `from` in `dir`, wrapped through tunnels.
pub open spec fn candidate(from: GridCell, dir: Direction, tunnel_rows: Seq<usize>) -> GridCell {
    wrap_col_spec(step_spec(from, dir), tunnel_rows)
}

/// The outcome of one movement frame.
pub open spec fn frame_spec(
    player: PlayerState,
    passed_center: bool,
    desired_dir: Option<Direction>,
    maze: Maze,
    tunnel_rows: Seq<usize>,
) -> FrameResult {
    let queued = match desired_dir {
        Some(d) => d,
        None => player.queued_direction,
    };
    let arrived = player.target_cell is Some && passed_center;
    if player.target_cell is Some && !arrived {
        FrameResult {
            new_current_cell: player.current_cell,
            new_target_cell: player.target_cell,
            new_current_dir: player.current_direction,
            new_queued_dir: queued,
            snap_to_target: false,
            move_dir: player.current_direction,
        }
    } else {
        let from = if arrived {
            player.target_cell->0
        } else {
            player.current_cell
        };
        let turn = candidate(from, queued, tunnel_rows);
        let ahead = candidate(from, player.current_direction, tunnel_rows);
        let turns = queued != Direction::Still && maze.walkable(turn);
        let goes_on = !turns && player.current_direction != Direction::Still && maze.walkable(ahead);
        let new_target = if turns {
            Some(turn)
        } else if goes_on {
            Some(ahead)
        } else {
            None
        };
        let new_dir = if turns {
            queued
        } else {
            player.current_direction
        };
        FrameResult {
            new_current_cell: from,
            new_target_cell: new_target,
            new_current_dir: new_dir,
            new_queued_dir: if turns {
                queued
            } else {
                Direction::Still
            },
            snap_to_target: arrived,
            move_dir: if new_target is Some {
                new_dir
            } else {
                Direction::Still
            },
        }
    }
}

/// On a tunnel row, a cell just off one side of the grid becomes the edge
/// cell on the other side; other cells stay as they are. The row is looked
/// up as a `usize`.
pub fn wrap_col(cell: GridCell, tunnel_rows: &Vec<usize>) -> (r: GridCell)
    ensures
        r == wrap_col_spec(cell, tunnel_rows@),
{
    let row = cell.row as usize;
    let mut found = false;
    let mut i: usize = 0;
    while i < tunnel_rows.len()
        invariant
            i <= tunnel_rows@.len(),
            row == cell.row as usize,
            found <==> exists|j: int| 0 <= j < i && tunnel_rows@[j] == row,
        decreases tunnel_rows@.len() - i,
    {
        if tunnel_rows[i] == row {
            found = true;
        }
        i += 1;
    }
    if !found {
        return cell;
    }
    if cell.col < 0 {
        GridCell::new(27, cell.row)
    } else if cell.col >= 28 {
        GridCell::new(0, cell.row)
    } else {
        cell
    }
}

/// The neighbour of `cell` in direction `dir`.
pub fn step(cell: GridCell, dir: Direction) -> (r: GridCell)
    requires
        step_fits(cell, dir),
    ensures
        r == step_spec(cell, dir),
{
    let (dc, dr) = dir.delta();
    GridCell::new(cell.col + dc, cell.row + dr)
}

/// Every step that a movement frame takes stays within `i32`: at a tile
/// centre, the step in the queued direction, and, when that turn is not
/// taken, the step in the current direction. Mid-tile no step is taken.
pub open spec fn frame_fits(
    player: PlayerState,
    passed_center: bool,
    desired_dir: Option<Direction>,
    maze: Maze,
    tunnel_rows: Seq<usize>,
) -> bool {
    let queued = match desired_dir {
        Some(d) => d,
        None => player.queued_direction,
    };
    let arrived = player.target_cell is Some && passed_center;
    if player.target_cell is Some && !arrived {
        true
    } else {
        let from = if arrived {
            player.target_cell->0
        } else {
            player.current_cell
        };
        &&& queued != Direction::Still ==> step_fits(from, queued)
        &&& (queued == Direction::Still || !maze.walkable(candidate(from, queued, tunnel_rows)))
            && player.current_direction != Direction::Still ==> step_fits(
            from,
            player.current_direction,
        )
    }
}

/// Decides one movement frame. `passed_center` tells whether Pac-Man has
/// reached or passed the centre of his target cell (it matters only when he
/// has a target); `desired_dir` is the direction asked for this frame, if
/// any.
pub fn compute_frame(
    player: &PlayerState,
    passed_center: bool,
    desired_dir: Option<Direction>,
    nav: &Maze,
    tunnel_rows: &Vec<usize>,
) -> (r: FrameResult)
    requires
        nav.wf(),
        frame_fits(*player, passed_center, desired_dir, *nav, tunnel_rows@),
    ensures
        r == frame_spec(*player, passed_center, desired_dir, *nav, tunnel_rows@),
        ({
            let queued = match desired_dir {
                Some(d) => d,
                None => player.queued_direction,
            };
            let at_centre = player.target_cell is None || passed_center;
            let from = if player.target_cell is Some {
                player.target_cell->0
            } else {
                player.current_cell
            };
            let cur = player.current_direction;
            let turn = candidate(from, queued, tunnel_rows@);
            let ahead = candidate(from, cur, tunnel_rows@);
            &&& !at_centre ==> {
                &&& r.new_current_cell == player.current_cell
                &&& r.new_target_cell == player.target_cell
                &&& r.new_current_dir == cur
                &&& r.new_queued_dir == queued
                &&& !r.snap_to_target
                &&& r.move_dir == cur
            }
            &&& at_centre ==> r.new_current_cell == from && r.snap_to_target == (
            player.target_cell is Some)
            &&& at_centre && queued != Direction::Still && nav.walkable(turn) ==> {
                &&& r.new_target_cell == Some(turn)
                &&& r.new_current_dir == queued
                &&& r.new_queued_dir == queued
                &&& r.move_dir == queued
            }
            &&& at_centre && (queued == Direction::Still || !nav.walkable(turn)) ==> {
                &&& r.new_queued_dir == Direction::Still
                &&& r.new_current_dir == cur
                &&& cur != Direction::Still && nav.walkable(ahead) ==> r.new_target_cell == Some(
                    ahead,
                ) && r.move_dir == cur
                &&& (cur == Direction::Still || !nav.walkable(ahead)) ==> r.new_target_cell is None
                    && r.move_dir == Direction::Still
            }
        }),
{
    let queued = match desired_dir {
        Some(d) => d,
        None => player.queued_direction,
    };
    let arrived = match player.target_cell {
        Some(_) => passed_center,
        None => false,
    };
    if player.target_cell.is_some() && !arrived {
        return FrameResult {
            new_current_cell: player.current_cell,
            new_target_cell: player.target_cell,
            new_current_dir: player.current_direction,
            new_queued_dir: queued,
            snap_to_target: false,
            move_dir: player.current_direction,
        };
    }
    let from_cell = match player.target_cell {
        Some(t) => if arrived {
            t
        } else {
            player.current_cell
        },
        None => player.current_cell,
    };
    let mut new_target: Option<GridCell> = None;
    let mut new_dir = player.current_direction;
    let mut new_queued = Direction::Still;
    if queued != Direction::Still {
        let candidate = wrap_col(step(from_cell, queued), tunnel_rows);
        if nav.is_walkable(candidate) {
            new_target = Some(candidate);
            new_dir = queued;
            new_queued = queued;
        }
    }
    if new_target.is_none() && player.current_direction != Direction::Still {
        let candidate = wrap_col(step(from_cell, player.current_direction), tunnel_rows);
        if nav.is_walkable(candidate) {
            new_target = Some(candidate);
        }
    }
    let move_dir = if new_target.is_some() {
        new_dir
    } else {
        Direction::Still
    };
    FrameResult {
        new_current_cell: from_cell,
        new_target_cell: new_target,
        new_current_dir: new_dir,
        new_queued_dir: new_queued,
        snap_to_target: arrived,
        move_dir,
    }
}

/// Whether one step from `c` in direction `dir` stays within `i32`.
fn step_fits_exec(c: GridCell, dir: Direction) -> (b: bool)
    ensures
        b == step_fits(c, dir),
{
    let (dc, dr) = dir.delta();
    let col = c.col as i64 + dc as i64;
    let row = c.row as i64 + dr as i64;
    -2147483648i64 <= col && col <= 2147483647i64 && -2147483648i64 <= row && row
        <= 2147483647i64
}

impl PacmanMovementSystem {
    /// Whether every step of the frame stays within `i32`, which
    /// `compute_frame` needs.
    pub fn steps_fit(
        player: &PlayerState,
        passed_center: bool,
        desired_dir: Option<Direction>,
        nav: &Maze,
        tunnel_rows: &Vec<usize>,
    ) -> (b: bool)
        requires
            nav.wf(),
        ensures
            b == frame_fits(*player, passed_center, desired_dir, *nav, tunnel_rows@),
    {
        let queued = match desired_dir {
            Some(d) => d,
            None => player.queued_direction,
        };
        let from = match player.target_cell {
            Some(t) => {
                if !passed_center {
                    return true;
                }
                t
            },
            None => player.current_cell,
        };
        let mut turn_blocked = true;
        if queued != Direction::Still {
            if !step_fits_exec(from, queued) {
                return false;
            }
            let candidate = wrap_col(step(from, queued), tunnel_rows);
            turn_blocked = !nav.is_walkable(candidate);
        }
        if turn_blocked && player.current_direction != Direction::Still {
            step_fits_exec(from, player.current_direction)
        } else {
            true
        }
    }

    /// Stores the grid outcome of a frame in Pac-Man's state.
    pub fn apply_frame(player: &mut PlayerState, r: &FrameResult)
        ensures
            final(player).current_cell == r.new_current_cell,
            final(player).target_cell == r.new_target_cell,
            final(player).current_direction == r.new_current_dir,
            final(player).queued_direction == r.new_queued_dir,
            final(player).entity_id == old(player).entity_id,
            final(player).invulnerability_timer == old(player).invulnerability_timer,
    {
        player.current_cell = r.new_current_cell;
        player.target_cell = r.new_target_cell;
        player.current_direction = r.new_current_dir;
        player.queued_direction = r.new_queued_dir;
    }
}

/// Pac-Man never heads into a wall: if his target cell (when he has one) is
/// walkable, so is the target after a frame. He only ever stands on his old
/// cell or his old target, and a queued direction survives a tile centre only
/// when it was taken.
pub proof fn lemma_frame_keeps_target_walkable(
    player: PlayerState,
    passed_center: bool,
    desired_dir: Option<Direction>,
    maze: Maze,
    tunnel_rows: Seq<usize>,
)
    requires
        player.target_cell is Some ==> maze.walkable(player.target_cell->0),
    ensures
        ({
            let r = frame_spec(player, passed_center, desired_dir, maze, tunnel_rows);
            &&& r.new_target_cell is Some ==> maze.walkable(r.new_target_cell->0)
            &&& r.new_current_cell == player.current_cell || Some(r.new_current_cell)
                == player.target_cell
            &&& r.snap_to_target ==> r.new_queued_dir == Direction::Still || r.new_queued_dir
                == r.new_current_dir
            &&& r.new_target_cell is None ==> r.move_dir == Direction::Still
        }),
{
}

/// How Pac-Man moves. Between tile centres he keeps going to his target and
/// only remembers the asked direction. At a tile centre (no target, or the
/// target reached) he stands on the old target and takes the asked direction
/// whenever the cell one step that way (wrapped through tunnels) is walkable,
/// reversing included; otherwise he drops the asked direction and goes on
/// ahead if he can, else stops.
pub proof fn lemma_frame_moves(
    player: PlayerState,
    passed_center: bool,
    desired_dir: Option<Direction>,
    maze: Maze,
    tunnel_rows: Seq<usize>,
)
    ensures
        ({
            let r = frame_spec(player, passed_center, desired_dir, maze, tunnel_rows);
            let queued = match desired_dir {
                Some(d) => d,
                None => player.queued_direction,
            };
            let at_centre = player.target_cell is None || passed_center;
            let from = if player.target_cell is Some {
                player.target_cell->0
            } else {
                player.current_cell
            };
            let cur = player.current_direction;
            let turn = candidate(from, queued, tunnel_rows);
            let ahead = candidate(from, cur, tunnel_rows);
            &&& !at_centre ==> {
                &&& r.new_current_cell == player.current_cell
                &&& r.new_target_cell == player.target_cell
                &&& r.new_current_dir == cur
                &&& r.new_queued_dir == queued
                &&& !r.snap_to_target
                &&& r.move_dir == cur
            }
            &&& at_centre ==> r.new_current_cell == from && r.snap_to_target == (
            player.target_cell is Some)
            &&& at_centre && queued != Direction::Still && maze.walkable(turn) ==> {
                &&& r.new_target_cell == Some(turn)
                &&& r.new_current_dir == queued
                &&& r.new_queued_dir == queued
                &&& r.move_dir == queued
            }
            &&& at_centre && (queued == Direction::Still || !maze.walkable(turn)) ==> {
                &&& r.new_queued_dir == Direction::Still
                &&& r.new_current_dir == cur
                &&& cur != Direction::Still && maze.walkable(ahead) ==> r.new_target_cell == Some(
                    ahead,
                ) && r.move_dir == cur
                &&& (cur == Direction::Still || !maze.walkable(ahead)) ==> r.new_target_cell is None
                    && r.move_dir == Direction::Still
            }
        }),
{
}

} // verus!
