//! Targets of frightened ghosts: the neighbouring cell farthest from Pac-Man.
use vstd::prelude::*;
use crate::events::MoveToEvent;
use crate::ghost::{GhostMode, GhostSnapshot};
use crate::grid_cell::{GridCell, manhattan_spec};
use crate::maze::Maze;

verus! {

/// The system that steers frightened ghosts.
pub struct GhostFleeSystem;

/// The four neighbours of a cell, in the order left, right, up, down.
pub open spec fn neighbour(from: GridCell, i: int) -> GridCell {
    if i == 0 {
        GridCell { col: (from.col - 1) as i32, row: from.row }
    } else if i == 1 {
        GridCell { col: (from.col + 1) as i32, row: from.row }
    } else if i == 2 {
        GridCell { col: from.col, row: (from.row - 1) as i32 }
    } else {
        GridCell { col: from.col, row: (from.row + 1) as i32 }
    }
}

/// The neighbours of `from` can be formed, and their distances to the threat
/// computed, in `i32`.
pub open spec fn flee_fits(from: GridCell, threat: GridCell, maze: Maze) -> bool {
    &&& i32::MIN < from.col < i32::MAX
    &&& i32::MIN < from.row < i32::MAX
    &&& forall|i: int|
        0 <= i < 4 && maze.walkable(#[trigger] neighbour(from, i)) ==> manhattan_spec(
            neighbour(from, i),
            threat,
        ) <= i32::MAX
}

/// `r` is where a frightened ghost at `from` flees: among the walkable
/// neighbours, one farthest from the threat (the last such in the order left,
/// right, up, down); `from` itself when no neighbour is walkable.
pub open spec fn is_flee_target(r: GridCell, from: GridCell, threat: GridCell, maze: Maze) -> bool {
    if forall|j: int| 0 <= j < 4 ==> !maze.walkable(#[trigger] neighbour(from, j)) {
        r == from
    } else {
        exists|i: int|
            0 <= i < 4 && r == neighbour(from, i) && maze.walkable(neighbour(from, i)) && (forall|j: int|
                0 <= j < 4 && maze.walkable(#[trigger] neighbour(from, j)) ==> manhattan_spec(
                    neighbour(from, j),
                    threat,
                ) <= manhattan_spec(neighbour(from, i), threat)) && (forall|j: int|
                i < j < 4 && maze.walkable(#[trigger] neighbour(from, j)) ==> manhattan_spec(
                    neighbour(from, j),
                    threat,
                ) < manhattan_spec(neighbour(from, i), threat))
    }
}

/// Manhattan distance between two cells.
pub fn manhattan(a: GridCell, b: GridCell) -> (d: i32)
    requires
        manhattan_spec(a, b) <= i32::MAX,
    ensures
        d == manhattan_spec(a, b),
{
    let dc = a.col - b.col;
    let dr = a.row - b.row;
    let adc = if dc < 0 { -dc } else { dc };
    let adr = if dr < 0 { -dr } else { dr };
    adc + adr
}

/// The neighbour `i` of `from`.
fn neighbour_of(from: GridCell, i: usize) -> (c: GridCell)
    requires
        i < 4,
        i32::MIN < from.col < i32::MAX,
        i32::MIN < from.row < i32::MAX,
    ensures
        c == neighbour(from, i as int),
{
    if i == 0 {
        GridCell::new(from.col - 1, from.row)
    } else if i == 1 {
        GridCell::new(from.col + 1, from.row)
    } else if i == 2 {
        GridCell::new(from.col, from.row - 1)
    } else {
        GridCell::new(from.col, from.row + 1)
    }
}

/// The walkable neighbour of `from` farthest from `threat`; `from` when none
/// is walkable.
pub fn flee_target(from: GridCell, threat: GridCell, nav: &Maze) -> (r: GridCell)
    requires
        nav.wf(),
        flee_fits(from, threat, *nav),
    ensures
        is_flee_target(r, from, threat, *nav),
{
    let mut best: Option<GridCell> = None;
    let mut best_dist: i32 = 0;
    let ghost mut best_i: int = 0;
    let mut i: usize = 0;
    while i < 4
        invariant
            nav.wf(),
            flee_fits(from, threat, *nav),
            i <= 4,
            best is None ==> forall|j: int| 0 <= j < i ==> !nav.walkable(#[trigger] neighbour(from, j)),
            best is Some ==> {
                &&& 0 <= best_i < i
                &&& best->0 == neighbour(from, best_i)
                &&& nav.walkable(neighbour(from, best_i))
                &&& best_dist == manhattan_spec(neighbour(from, best_i), threat)
                &&& forall|j: int|
                    0 <= j < i && nav.walkable(#[trigger] neighbour(from, j)) ==> manhattan_spec(
                        neighbour(from, j),
                        threat,
                    ) <= best_dist
                &&& forall|j: int|
                    best_i < j < i && nav.walkable(#[trigger] neighbour(from, j)) ==> manhattan_spec(
                        neighbour(from, j),
                        threat,
                    ) < best_dist
            },
        decreases 4 - i,
    {
        let cell = neighbour_of(from, i);
        if nav.is_walkable(cell) {
            let d = manhattan(cell, threat);
            let take = match best {
                None => true,
                Some(_) => d >= best_dist,
            };
            if take {
                best = Some(cell);
                best_dist = d;
                proof {
                    best_i = i as int;
                }
            }
        }
        i += 1;
    }
    match best {
        Some(c) => c,
        None => from,
    }
}

/// The ghost is frightened and its agent is idle.
pub open spec fn wants_flee_target(g: GhostSnapshot) -> bool {
    g.mode == GhostMode::Frightened && g.agent is Some && g.agent->0.is_idle
}

/// Every fleeing ghost's target can be computed in `i32`.
pub open spec fn flee_all_fit(ghosts: Seq<GhostSnapshot>, player: GridCell, maze: Maze) -> bool {
    forall|i: int|
        0 <= i < ghosts.len() && wants_flee_target(#[trigger] ghosts[i]) ==> flee_fits(
            ghosts[i].agent->0.current_cell,
            player,
            maze,
        )
}

/// `r` holds, in entity order, one move request for every frightened ghost
/// whose agent is idle, each aimed at a flee target of that ghost.
pub open spec fn flee_requests_ok(
    r: Seq<MoveToEvent>,
    ghosts: Seq<GhostSnapshot>,
    player: GridCell,
    maze: Maze,
    n: int,
) -> bool
    decreases n,
{
    if n <= 0 {
        r.len() == 0
    } else {
        let g = ghosts[n - 1];
        if wants_flee_target(g) {
            &&& r.len() > 0
            &&& r.last().entity_id == g.entity_id
            &&& is_flee_target(r.last().target, g.agent->0.current_cell, player, maze)
            &&& flee_requests_ok(r.drop_last(), ghosts, player, maze, n - 1)
        } else {
            flee_requests_ok(r, ghosts, player, maze, n - 1)
        }
    }
}

/// Whether a ghost at `from` can pick its flee target within `i32`.
pub fn flee_fits_exec(from: GridCell, threat: GridCell, nav: &Maze) -> (b: bool)
    requires
        nav.wf(),
    ensures
        b == flee_fits(from, threat, *nav),
{
    if !(i32::MIN < from.col && from.col < i32::MAX && i32::MIN < from.row && from.row < i32::MAX) {
        return false;
    }
    let mut i: usize = 0;
    while i < 4
        invariant
            nav.wf(),
            i <= 4,
            i32::MIN < from.col < i32::MAX,
            i32::MIN < from.row < i32::MAX,
            forall|j: int|
                0 <= j < i && nav.walkable(#[trigger] neighbour(from, j)) ==> manhattan_spec(
                    neighbour(from, j),
                    threat,
                ) <= i32::MAX,
        decreases 4 - i,
    {
        let cell = neighbour_of(from, i);
        if nav.is_walkable(cell) {
            let c = cell.col as i64 - threat.col as i64;
            let r = cell.row as i64 - threat.row as i64;
            let ac = if c < 0 { -c } else { c };
            let ar = if r < 0 { -r } else { r };
            if ac + ar > 2147483647i64 {
                return false;
            }
        }
        i += 1;
    }
    true
}

impl GhostFleeSystem {
    /// Whether every fleeing ghost's target can be computed in `i32`, which
    /// `move_requests` needs.
    pub fn targets_fit(player_cell: GridCell, ghosts: &Vec<GhostSnapshot>, nav: &Maze) -> (b: bool)
        requires
            nav.wf(),
        ensures
            b == flee_all_fit(ghosts@, player_cell, *nav),
    {
        let mut i: usize = 0;
        while i < ghosts.len()
            invariant
                nav.wf(),
                i <= ghosts@.len(),
                forall|j: int|
                    0 <= j < i && wants_flee_target(#[trigger] ghosts@[j]) ==> flee_fits(
                        ghosts@[j].agent->0.current_cell,
                        player_cell,
                        *nav,
                    ),
            decreases ghosts@.len() - i,
        {
            let g = ghosts[i];
            match g.agent {
                Some(a) => {
                    if g.mode == GhostMode::Frightened && a.is_idle {
                        if !flee_fits_exec(a.current_cell, player_cell, nav) {
                            assert(wants_flee_target(ghosts@[i as int]));
                            return false;
                        }
                    }
                },
                None => {},
            }
            i += 1;
        }
        true
    }

    /// One frame of the flee system: a move request, in entity order, for
    /// every frightened ghost whose agent is idle.
    pub fn move_requests(player_cell: GridCell, ghosts: &Vec<GhostSnapshot>, nav: &Maze) -> (r: Vec<
        MoveToEvent,
    >)
        requires
            nav.wf(),
            flee_all_fit(ghosts@, player_cell, *nav),
        ensures
            flee_requests_ok(r@, ghosts@, player_cell, *nav, ghosts@.len() as int),
    {
        let mut out: Vec<MoveToEvent> = Vec::new();
        let mut i: usize = 0;
        while i < ghosts.len()
            invariant
                nav.wf(),
                i <= ghosts@.len(),
                flee_all_fit(ghosts@, player_cell, *nav),
                flee_requests_ok(out@, ghosts@, player_cell, *nav, i as int),
            decreases ghosts@.len() - i,
        {
            let g = ghosts[i];
            match g.agent {
                Some(a) => {
                    if g.mode == GhostMode::Frightened && a.is_idle {
                        assert(wants_flee_target(ghosts@[i as int]));
                        let target = flee_target(a.current_cell, player_cell, nav);
                        let ghost prev = out@;
                        out.push(MoveToEvent { entity_id: g.entity_id, target });
                        assert(out@.drop_last() == prev);
                    }
                },
                None => {},
            }
            i += 1;
        }
        out
    }
}

/// `e` asks some frightened ghost among the first `n` with an idle agent to
/// flee to one of its flee targets.
pub open spec fn flees_idle_frightened(
    ghosts: Seq<GhostSnapshot>,
    player: GridCell,
    maze: Maze,
    n: int,
    e: MoveToEvent,
) -> bool {
    exists|i: int|
        0 <= i < n && ghosts[i].mode == GhostMode::Frightened && ghosts[i].agent is Some
            && ghosts[i].agent->0.is_idle && e.entity_id == #[trigger] ghosts[i].entity_id
            && is_flee_target(e.target, ghosts[i].agent->0.current_cell, player, maze)
}

/// Some request in `r` asks ghost `g` to flee to one of its flee targets.
pub open spec fn has_flee_request(r: Seq<MoveToEvent>, g: GhostSnapshot, player: GridCell, maze: Maze) -> bool {
    exists|k: int|
        0 <= k < r.len() && (#[trigger] r[k]).entity_id == g.entity_id && is_flee_target(
            r[k].target,
            g.agent->0.current_cell,
            player,
            maze,
        )
}

/// The ghost that request `k` moves.
proof fn flee_request_source(
    r: Seq<MoveToEvent>,
    ghosts: Seq<GhostSnapshot>,
    player: GridCell,
    maze: Maze,
    n: int,
    k: int,
) -> (i: int)
    requires
        0 <= n <= ghosts.len(),
        flee_requests_ok(r, ghosts, player, maze, n),
        0 <= k < r.len(),
    ensures
        0 <= i < n,
        ghosts[i].mode == GhostMode::Frightened && ghosts[i].agent is Some
            && ghosts[i].agent->0.is_idle,
        r[k].entity_id == ghosts[i].entity_id,
        is_flee_target(r[k].target, ghosts[i].agent->0.current_cell, player, maze),
    decreases n,
{
    if wants_flee_target(ghosts[n - 1]) {
        if k == r.len() - 1 {
            n - 1
        } else {
            assert(r.drop_last()[k] == r[k]);
            flee_request_source(r.drop_last(), ghosts, player, maze, n - 1, k)
        }
    } else {
        flee_request_source(r, ghosts, player, maze, n - 1, k)
    }
}

/// A request for ghost `i` among the first `n`.
proof fn flee_request_index(
    r: Seq<MoveToEvent>,
    ghosts: Seq<GhostSnapshot>,
    player: GridCell,
    maze: Maze,
    n: int,
    i: int,
) -> (k: int)
    requires
        0 <= i < n <= ghosts.len(),
        flee_requests_ok(r, ghosts, player, maze, n),
        ghosts[i].mode == GhostMode::Frightened && ghosts[i].agent is Some
            && ghosts[i].agent->0.is_idle,
    ensures
        0 <= k < r.len(),
        r[k].entity_id == ghosts[i].entity_id,
        is_flee_target(r[k].target, ghosts[i].agent->0.current_cell, player, maze),
    decreases n,
{
    if i == n - 1 {
        r.len() - 1
    } else if wants_flee_target(ghosts[n - 1]) {
        let k = flee_request_index(r.drop_last(), ghosts, player, maze, n - 1, i);
        assert(r.drop_last()[k] == r[k]);
        k
    } else {
        flee_request_index(r, ghosts, player, maze, n - 1, i)
    }
}

/// Exactly the frightened ghosts whose agents are idle are asked to flee,
/// each to one of its own flee targets: every such ghost has a request, and
/// every request is for such a ghost.
pub proof fn lemma_flee_requests_exact(
    r: Seq<MoveToEvent>,
    ghosts: Seq<GhostSnapshot>,
    player: GridCell,
    maze: Maze,
)
    requires
        flee_requests_ok(r, ghosts, player, maze, ghosts.len() as int),
    ensures
        forall|i: int|
            0 <= i < ghosts.len() && ghosts[i].mode == GhostMode::Frightened && ghosts[i].agent is Some
                && ghosts[i].agent->0.is_idle ==> has_flee_request(r, #[trigger] ghosts[i], player, maze),
        forall|k: int|
            0 <= k < r.len() ==> flees_idle_frightened(ghosts, player, maze, ghosts.len() as int, #[trigger] r[k]),
{
    let n = ghosts.len() as int;
    assert forall|i: int|
        0 <= i < n && ghosts[i].mode == GhostMode::Frightened && ghosts[i].agent is Some
            && ghosts[i].agent->0.is_idle implies has_flee_request(r, #[trigger] ghosts[i], player, maze) by {
        let k = flee_request_index(r, ghosts, player, maze, n, i);
    }
    assert forall|k: int| 0 <= k < r.len() implies flees_idle_frightened(
        ghosts,
        player,
        maze,
        n,
        #[trigger] r[k],
    ) by {
        let i = flee_request_source(r, ghosts, player, maze, n, k);
    }
}

} // verus!
