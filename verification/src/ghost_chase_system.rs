//! Targets of the ghosts in chase mode.
use vstd::prelude::*;
use crate::events::MoveToEvent;
use crate::ghost::{GhostMode, GhostSnapshot, GhostType};
use crate::ghost_flee_system::manhattan;
use crate::grid_cell::{GridCell, abs_int, manhattan_spec};
use crate::maze::{Maze, GRID_HEIGHT, GRID_WIDTH};
use crate::player::{Direction, delta_spec};

verus! {

/// The system that steers ghosts in chase mode.
pub struct GhostChaseSystem;

/// `v` brought into the range `lo..=hi`.
pub open spec fn clamp_spec(v: int, lo: int, hi: int) -> int {
    if v < lo {
        lo
    } else if v > hi {
        hi
    } else {
        v
    }
}

/// The cell nearest to (col, row) on the grid.
pub open spec fn clamp_to_grid_spec(col: int, row: int) -> GridCell {
    GridCell {
        col: clamp_spec(col, 0, GRID_WIDTH - 1) as i32,
        row: clamp_spec(row, 0, GRID_HEIGHT - 1) as i32,
    }
}

/// Pinky aims 4 tiles ahead of Pac-Man.
pub open spec fn pinky_target_spec(player: GridCell, dir: Direction) -> GridCell {
    clamp_to_grid_spec(player.col + 4 * delta_spec(dir).0, player.row + 4 * delta_spec(dir).1)
}

/// Inky reflects Blinky through the cell 2 tiles ahead of Pac-Man.
pub open spec fn inky_target_spec(player: GridCell, dir: Direction, blinky: GridCell) -> GridCell {
    clamp_to_grid_spec(
        2 * (player.col + 2 * delta_spec(dir).0) - blinky.col,
        2 * (player.row + 2 * delta_spec(dir).1) - blinky.row,
    )
}

/// Clyde aims at Pac-Man when more than 8 tiles away, else at his corner.
pub open spec fn clyde_target_spec(player: GridCell, me: GridCell, corner: GridCell) -> GridCell {
    if manhattan_spec(player, me) > 8 {
        player
    } else {
        corner
    }
}

pub open spec fn fits_i32(v: int) -> bool {
    i32::MIN <= v <= i32::MAX
}

/// Pinky's target can be computed in `i32`.
pub open spec fn pinky_fits(player: GridCell, dir: Direction) -> bool {
    &&& fits_i32(player.col + 4 * delta_spec(dir).0)
    &&& fits_i32(player.row + 4 * delta_spec(dir).1)
}

/// Inky's target can be computed in `i32`.
pub open spec fn inky_fits(player: GridCell, dir: Direction, blinky: GridCell) -> bool {
    let pc = player.col + 2 * delta_spec(dir).0;
    let pr = player.row + 2 * delta_spec(dir).1;
    &&& fits_i32(pc) && fits_i32(2 * pc) && fits_i32(2 * pc - blinky.col)
    &&& fits_i32(pr) && fits_i32(2 * pr) && fits_i32(2 * pr - blinky.row)
}

/// Clyde's distance to Pac-Man can be computed in `i32`.
pub open spec fn clyde_fits(player: GridCell, me: GridCell) -> bool {
    manhattan_spec(player, me) <= i32::MAX
}

/// The target a ghost of a kind picks before the walkability check.
pub open spec fn raw_chase_target_spec(
    kind: GhostType,
    player: GridCell,
    dir: Direction,
    blinky: GridCell,
    me: GridCell,
    corner: GridCell,
) -> GridCell {
    match kind {
        GhostType::Blinky => player,
        GhostType::Pinky => pinky_target_spec(player, dir),
        GhostType::Inky => inky_target_spec(player, dir, blinky),
        GhostType::Clyde => clyde_target_spec(player, me, corner),
    }
}

/// The arithmetic for a ghost of a kind stays within `i32`.
pub open spec fn chase_fits(
    kind: GhostType,
    player: GridCell,
    dir: Direction,
    blinky: GridCell,
    me: GridCell,
) -> bool {
    match kind {
        GhostType::Blinky => true,
        GhostType::Pinky => pinky_fits(player, dir),
        GhostType::Inky => inky_fits(player, dir, blinky),
        GhostType::Clyde => clyde_fits(player, me),
    }
}

/// The chase target, falling back to Pac-Man's cell where the kind's target
/// is a wall or off the grid.
pub open spec fn chase_target_spec(
    maze: Maze,
    kind: GhostType,
    player: GridCell,
    dir: Direction,
    blinky: GridCell,
    me: GridCell,
    corner: GridCell,
) -> GridCell {
    let raw = raw_chase_target_spec(kind, player, dir, blinky, me, corner);
    if maze.walkable(raw) {
        raw
    } else {
        player
    }
}

/// Brings `v` into the range `lo..=hi`.
fn clamp_i32(v: i32, lo: i32, hi: i32) -> (r: i32)
    requires
        lo <= hi,
    ensures
        r == clamp_spec(v as int, lo as int, hi as int),
{
    if v < lo {
        lo
    } else if v > hi {
        hi
    } else {
        v
    }
}

/// The cell of the grid nearest to `cell`.
pub fn clamp_to_grid(cell: GridCell) -> (r: GridCell)
    ensures
        r == clamp_to_grid_spec(cell.col as int, cell.row as int),
        0 <= r.col < GRID_WIDTH,
        0 <= r.row < GRID_HEIGHT,
{
    GridCell::new(clamp_i32(cell.col, 0, 27), clamp_i32(cell.row, 0, 30))
}

/// Pinky targets 4 tiles ahead of Pac-Man in his current direction.
pub fn pinky_target(player_cell: GridCell, dir: Direction) -> (r: GridCell)
    requires
        pinky_fits(player_cell, dir),
    ensures
        r == pinky_target_spec(player_cell, dir),
{
    let (dc, dr) = dir.delta();
    clamp_to_grid(GridCell::new(player_cell.col + dc * 4, player_cell.row + dr * 4))
}

/// Inky reflects Blinky through a pivot 2 tiles ahead of Pac-Man.
pub fn inky_target(player_cell: GridCell, dir: Direction, blinky_cell: GridCell) -> (r: GridCell)
    requires
        inky_fits(player_cell, dir, blinky_cell),
    ensures
        r == inky_target_spec(player_cell, dir, blinky_cell),
{
    let (dc, dr) = dir.delta();
    let pivot_col = player_cell.col + dc * 2;
    let pivot_row = player_cell.row + dr * 2;
    clamp_to_grid(GridCell::new(pivot_col * 2 - blinky_cell.col, pivot_row * 2 - blinky_cell.row))
}

/// Clyde targets Pac-Man when far (>8 tiles), otherwise retreats to his scatter corner.
pub fn clyde_target(player_cell: GridCell, my_cell: GridCell, scatter_corner: GridCell) -> (r: GridCell)
    requires
        clyde_fits(player_cell, my_cell),
    ensures
        r == clyde_target_spec(player_cell, my_cell, scatter_corner),
{
    let dist = manhattan(player_cell, my_cell);
    if dist > 8 {
        player_cell
    } else {
        scatter_corner
    }
}

/// The target of a chasing ghost: its kind's target, or Pac-Man's cell where
/// that target is a wall or off the grid.
pub fn chase_target(
    kind: GhostType,
    player_cell: GridCell,
    player_dir: Direction,
    blinky_cell: GridCell,
    my_cell: GridCell,
    scatter_corner: GridCell,
    nav: &Maze,
) -> (r: GridCell)
    requires
        nav.wf(),
        chase_fits(kind, player_cell, player_dir, blinky_cell, my_cell),
    ensures
        r == chase_target_spec(*nav, kind, player_cell, player_dir, blinky_cell, my_cell, scatter_corner),
        nav.walkable(r) || r == player_cell,
{
    let raw_target = match kind {
        GhostType::Blinky => player_cell,
        GhostType::Pinky => pinky_target(player_cell, player_dir),
        GhostType::Inky => inky_target(player_cell, player_dir, blinky_cell),
        GhostType::Clyde => clyde_target(player_cell, my_cell, scatter_corner),
    };
    if nav.is_walkable(raw_target) {
        raw_target
    } else {
        player_cell
    }
}

/// The cell of the first Blinky from index `i` on, if that ghost has a
/// navigation agent.
pub open spec fn find_blinky_from(ghosts: Seq<GhostSnapshot>, i: int) -> Option<GridCell>
    decreases ghosts.len() - i,
{
    if i < 0 || i >= ghosts.len() {
        None
    } else if ghosts[i].identity.ghost_type == GhostType::Blinky {
        match ghosts[i].agent {
            Some(a) => Some(a.current_cell),
            None => None,
        }
    } else {
        find_blinky_from(ghosts, i + 1)
    }
}

/// The cell of the first ghost of type Blinky, if it has a navigation agent.
pub fn find_blinky_cell(ghosts: &Vec<GhostSnapshot>) -> (r: Option<GridCell>)
    ensures
        r == find_blinky_from(ghosts@, 0),
{
    let mut i: usize = 0;
    while i < ghosts.len()
        invariant
            i <= ghosts@.len(),
            find_blinky_from(ghosts@, 0) == find_blinky_from(ghosts@, i as int),
        decreases ghosts@.len() - i,
    {
        let g = ghosts[i];
        if g.identity.ghost_type == GhostType::Blinky {
            return match g.agent {
                Some(a) => Some(a.current_cell),
                None => None,
            };
        }
        i += 1;
    }
    None
}

/// The ghost is chasing and its agent is idle.
pub open spec fn wants_chase_target(g: GhostSnapshot) -> bool {
    g.mode == GhostMode::Chase && g.agent is Some && g.agent->0.is_idle
}

/// The cell that Inky reflects: Blinky's, or Pac-Man's when no Blinky is found.
pub open spec fn blinky_or_player(ghosts: Seq<GhostSnapshot>, player: GridCell) -> GridCell {
    match find_blinky_from(ghosts, 0) {
        Some(c) => c,
        None => player,
    }
}

/// The move requests for the first `n` ghosts.
pub open spec fn chase_requests_spec(
    maze: Maze,
    ghosts: Seq<GhostSnapshot>,
    player: GridCell,
    dir: Direction,
    blinky: GridCell,
    n: int,
) -> Seq<MoveToEvent>
    decreases n,
{
    if n <= 0 {
        Seq::empty()
    } else {
        let prev = chase_requests_spec(maze, ghosts, player, dir, blinky, n - 1);
        let g = ghosts[n - 1];
        if wants_chase_target(g) {
            prev.push(
                MoveToEvent {
                    entity_id: g.entity_id,
                    target: chase_target_spec(
                        maze,
                        g.identity.ghost_type,
                        player,
                        dir,
                        blinky,
                        g.agent->0.current_cell,
                        g.identity.scatter_corner,
                    ),
                },
            )
        } else {
            prev
        }
    }
}

/// Every chasing ghost's target can be computed in `i32`.
pub open spec fn chase_all_fit(ghosts: Seq<GhostSnapshot>, player: GridCell, dir: Direction) -> bool {
    forall|i: int|
        0 <= i < ghosts.len() && wants_chase_target(#[trigger] ghosts[i]) ==> chase_fits(
            ghosts[i].identity.ghost_type,
            player,
            dir,
            blinky_or_player(ghosts, player),
            ghosts[i].agent->0.current_cell,
        )
}

/// Whether `v` lies in the range of `i32`.
fn fits_i32_exec(v: i64) -> (b: bool)
    ensures
        b == fits_i32(v as int),
{
    -2147483648i64 <= v && v <= 2147483647i64
}

/// Whether the arithmetic for a ghost of kind `kind` stays within `i32`.
pub fn chase_fits_exec(
    kind: GhostType,
    player: GridCell,
    dir: Direction,
    blinky: GridCell,
    me: GridCell,
) -> (b: bool)
    ensures
        b == chase_fits(kind, player, dir, blinky, me),
{
    let (dc, dr) = dir.delta();
    let (pc, pr, mc, mr, bc, br) = (
        player.col as i64,
        player.row as i64,
        me.col as i64,
        me.row as i64,
        blinky.col as i64,
        blinky.row as i64,
    );
    match kind {
        GhostType::Blinky => true,
        GhostType::Pinky => fits_i32_exec(pc + 4 * (dc as i64)) && fits_i32_exec(pr + 4 * (dr as i64)),
        GhostType::Inky => {
            let vc = pc + 2 * (dc as i64);
            let vr = pr + 2 * (dr as i64);
            fits_i32_exec(vc) && fits_i32_exec(2 * vc) && fits_i32_exec(2 * vc - bc) && fits_i32_exec(
                vr,
            ) && fits_i32_exec(2 * vr) && fits_i32_exec(2 * vr - br)
        },
        GhostType::Clyde => {
            let c = pc - mc;
            let r = pr - mr;
            let ac = if c < 0 { -c } else { c };
            let ar = if r < 0 { -r } else { r };
            ac + ar <= 2147483647i64
        },
    }
}

impl GhostChaseSystem {
    /// Whether every chasing ghost's target can be computed in `i32`, which
    /// `move_requests` needs.
    pub fn targets_fit(player_cell: GridCell, player_dir: Direction, ghosts: &Vec<GhostSnapshot>) -> (b:
        bool)
        ensures
            b == chase_all_fit(ghosts@, player_cell, player_dir),
    {
        let blinky_cell = match find_blinky_cell(ghosts) {
            Some(c) => c,
            None => player_cell,
        };
        let mut i: usize = 0;
        while i < ghosts.len()
            invariant
                i <= ghosts@.len(),
                blinky_cell == blinky_or_player(ghosts@, player_cell),
                forall|j: int|
                    0 <= j < i && wants_chase_target(#[trigger] ghosts@[j]) ==> chase_fits(
                        ghosts@[j].identity.ghost_type,
                        player_cell,
                        player_dir,
                        blinky_cell,
                        ghosts@[j].agent->0.current_cell,
                    ),
            decreases ghosts@.len() - i,
        {
            let g = ghosts[i];
            match g.agent {
                Some(a) => {
                    if g.mode == GhostMode::Chase && a.is_idle {
                        if !chase_fits_exec(
                            g.identity.ghost_type,
                            player_cell,
                            player_dir,
                            blinky_cell,
                            a.current_cell,
                        ) {
                            assert(wants_chase_target(ghosts@[i as int]));
                            return false;
                        }
                    }
                },
                None => {},
            }
            i += 1;
        }
        true
    }

    /// One frame of the chase system: a move request, in entity order, for
    /// every chasing ghost whose agent is idle.
    pub fn move_requests(
        player_cell: GridCell,
        player_dir: Direction,
        ghosts: &Vec<GhostSnapshot>,
        nav: &Maze,
    ) -> (r: Vec<MoveToEvent>)
        requires
            nav.wf(),
            chase_all_fit(ghosts@, player_cell, player_dir),
        ensures
            r@ == chase_requests_spec(
                *nav,
                ghosts@,
                player_cell,
                player_dir,
                blinky_or_player(ghosts@, player_cell),
                ghosts@.len() as int,
            ),
            find_blinky_from(ghosts@, 0) matches Some(c) ==> r@ == chase_requests_spec(
                *nav,
                ghosts@,
                player_cell,
                player_dir,
                c,
                ghosts@.len() as int,
            ),
            find_blinky_from(ghosts@, 0) is None ==> r@ == chase_requests_spec(
                *nav,
                ghosts@,
                player_cell,
                player_dir,
                player_cell,
                ghosts@.len() as int,
            ),
    {
        let blinky = find_blinky_cell(ghosts);
        let blinky_cell = match blinky {
            Some(c) => c,
            None => player_cell,
        };
        let mut out: Vec<MoveToEvent> = Vec::new();
        let mut i: usize = 0;
        while i < ghosts.len()
            invariant
                nav.wf(),
                i <= ghosts@.len(),
                blinky_cell == blinky_or_player(ghosts@, player_cell),
                chase_all_fit(ghosts@, player_cell, player_dir),
                out@ == chase_requests_spec(*nav, ghosts@, player_cell, player_dir, blinky_cell, i as int),
            decreases ghosts@.len() - i,
        {
            let g = ghosts[i];
            match g.agent {
                Some(a) => {
                    if g.mode == GhostMode::Chase && a.is_idle {
                        assert(wants_chase_target(ghosts@[i as int]));
                        let target = chase_target(
                            g.identity.ghost_type,
                            player_cell,
                            player_dir,
                            blinky_cell,
                            a.current_cell,
                            g.identity.scatter_corner,
                            nav,
                        );
                        out.push(MoveToEvent { entity_id: g.entity_id, target });
                    }
                },
                None => {},
            }
            i += 1;
        }
        out
    }
}

/// The cell Inky reflects is the agent cell of the first Blinky in the
/// ghost list when that Blinky has an agent; only without one is Pac-Man's
/// own cell reflected.
pub proof fn lemma_inky_reflects_first_blinky(ghosts: Seq<GhostSnapshot>, player: GridCell, i: int)
    requires
        0 <= i < ghosts.len(),
        ghosts[i].identity.ghost_type == GhostType::Blinky,
        forall|j: int| 0 <= j < i ==> #[trigger] ghosts[j].identity.ghost_type != GhostType::Blinky,
    ensures
        ghosts[i].agent matches Some(a) ==> blinky_or_player(ghosts, player) == a.current_cell,
        ghosts[i].agent is None ==> blinky_or_player(ghosts, player) == player,
{
    lemma_find_blinky_skips(ghosts, 0, i);
}

/// The search for Blinky passes over ghosts of other types.
proof fn lemma_find_blinky_skips(ghosts: Seq<GhostSnapshot>, k: int, i: int)
    requires
        0 <= k <= i < ghosts.len(),
        forall|j: int| 0 <= j < i ==> #[trigger] ghosts[j].identity.ghost_type != GhostType::Blinky,
    ensures
        find_blinky_from(ghosts, k) == find_blinky_from(ghosts, i),
    decreases i - k,
{
    if k < i {
        lemma_find_blinky_skips(ghosts, k + 1, i);
    }
}

/// The request a chasing ghost gets: to walk to its chase target.
pub open spec fn chase_request_of(
    maze: Maze,
    g: GhostSnapshot,
    player: GridCell,
    dir: Direction,
    blinky: GridCell,
) -> MoveToEvent {
    MoveToEvent {
        entity_id: g.entity_id,
        target: chase_target_spec(
            maze,
            g.identity.ghost_type,
            player,
            dir,
            blinky,
            g.agent->0.current_cell,
            g.identity.scatter_corner,
        ),
    }
}

/// `e` is the request of some ghost among the first `n` that is in chase
/// mode with an idle agent.
pub open spec fn requested_by_idle_chaser(
    maze: Maze,
    ghosts: Seq<GhostSnapshot>,
    player: GridCell,
    dir: Direction,
    blinky: GridCell,
    n: int,
    e: MoveToEvent,
) -> bool {
    exists|i: int|
        0 <= i < n && ghosts[i].mode == GhostMode::Chase && ghosts[i].agent is Some
            && ghosts[i].agent->0.is_idle && e == #[trigger] chase_request_of(
            maze,
            ghosts[i],
            player,
            dir,
            blinky,
        )
}

/// The ghost whose request is request `k`.
proof fn chase_request_source(
    maze: Maze,
    ghosts: Seq<GhostSnapshot>,
    player: GridCell,
    dir: Direction,
    blinky: GridCell,
    n: int,
    k: int,
) -> (i: int)
    requires
        0 <= n <= ghosts.len(),
        0 <= k < chase_requests_spec(maze, ghosts, player, dir, blinky, n).len(),
    ensures
        0 <= i < n,
        ghosts[i].mode == GhostMode::Chase && ghosts[i].agent is Some && ghosts[i].agent->0.is_idle,
        chase_requests_spec(maze, ghosts, player, dir, blinky, n)[k] == chase_request_of(
            maze,
            ghosts[i],
            player,
            dir,
            blinky,
        ),
    decreases n,
{
    let prev = chase_requests_spec(maze, ghosts, player, dir, blinky, n - 1);
    if k < prev.len() {
        chase_request_source(maze, ghosts, player, dir, blinky, n - 1, k)
    } else {
        n - 1
    }
}

/// Exactly the ghosts in chase mode whose agents are idle get a request,
/// each to walk to its own chase target: every such ghost's request is in the
/// list, and every request in the list is such a ghost's.
pub proof fn lemma_chase_requests_exact(
    maze: Maze,
    ghosts: Seq<GhostSnapshot>,
    player: GridCell,
    dir: Direction,
    blinky: GridCell,
    n: int,
)
    requires
        0 <= n <= ghosts.len(),
    ensures
        forall|i: int|
            0 <= i < n && ghosts[i].mode == GhostMode::Chase && ghosts[i].agent is Some
                && ghosts[i].agent->0.is_idle ==> chase_requests_spec(
                maze,
                ghosts,
                player,
                dir,
                blinky,
                n,
            ).contains(#[trigger] chase_request_of(maze, ghosts[i], player, dir, blinky)),
        forall|k: int|
            0 <= k < chase_requests_spec(maze, ghosts, player, dir, blinky, n).len()
                ==> requested_by_idle_chaser(
                maze,
                ghosts,
                player,
                dir,
                blinky,
                n,
                #[trigger] chase_requests_spec(maze, ghosts, player, dir, blinky, n)[k],
            ),
    decreases n,
{
    let r = chase_requests_spec(maze, ghosts, player, dir, blinky, n);
    if n > 0 {
        lemma_chase_requests_exact(maze, ghosts, player, dir, blinky, n - 1);
        let prev = chase_requests_spec(maze, ghosts, player, dir, blinky, n - 1);
        assert forall|i: int|
            0 <= i < n && ghosts[i].mode == GhostMode::Chase && ghosts[i].agent is Some
                && ghosts[i].agent->0.is_idle implies r.contains(
            #[trigger] chase_request_of(maze, ghosts[i], player, dir, blinky),
        ) by {
            if i < n - 1 {
                let k = choose|k: int|
                    0 <= k < prev.len() && prev[k] == chase_request_of(
                        maze,
                        ghosts[i],
                        player,
                        dir,
                        blinky,
                    );
                assert(r[k] == prev[k]);
            } else {
                assert(r[r.len() - 1] == chase_request_of(maze, ghosts[i], player, dir, blinky));
            }
        }
    }
    assert forall|k: int| 0 <= k < r.len() implies requested_by_idle_chaser(
        maze,
        ghosts,
        player,
        dir,
        blinky,
        n,
        #[trigger] chase_requests_spec(maze, ghosts, player, dir, blinky, n)[k],
    ) by {
        let i = chase_request_source(maze, ghosts, player, dir, blinky, n, k);
        assert(chase_request_of(maze, ghosts[i], player, dir, blinky) == r[k]);
    }
}

/// The ghosts' personalities: Blinky aims at Pac-Man's cell; Pinky at the
/// cell 4 tiles ahead of him and Inky at Blinky's cell reflected through the
/// cell 2 tiles ahead of him, both kept on the grid; Clyde at Pac-Man when
/// more than 8 tiles away, else at his scatter corner.
pub proof fn lemma_ghost_personalities(
    player: GridCell,
    dir: Direction,
    blinky: GridCell,
    me: GridCell,
    corner: GridCell,
)
    ensures
        raw_chase_target_spec(GhostType::Blinky, player, dir, blinky, me, corner) == player,
        ({
            let t = raw_chase_target_spec(GhostType::Pinky, player, dir, blinky, me, corner);
            let c = player.col + 4 * delta_spec(dir).0;
            let r = player.row + 4 * delta_spec(dir).1;
            &&& 0 <= t.col < GRID_WIDTH && 0 <= t.row < GRID_HEIGHT
            &&& 0 <= c < GRID_WIDTH && 0 <= r < GRID_HEIGHT ==> t.col == c && t.row == r
        }),
        ({
            let t = raw_chase_target_spec(GhostType::Inky, player, dir, blinky, me, corner);
            let c = 2 * (player.col + 2 * delta_spec(dir).0) - blinky.col;
            let r = 2 * (player.row + 2 * delta_spec(dir).1) - blinky.row;
            &&& 0 <= t.col < GRID_WIDTH && 0 <= t.row < GRID_HEIGHT
            &&& 0 <= c < GRID_WIDTH && 0 <= r < GRID_HEIGHT ==> t.col == c && t.row == r
        }),
        abs_int(player.col - me.col) + abs_int(player.row - me.row) > 8 ==> raw_chase_target_spec(
            GhostType::Clyde,
            player,
            dir,
            blinky,
            me,
            corner,
        ) == player,
        abs_int(player.col - me.col) + abs_int(player.row - me.row) <= 8 ==> raw_chase_target_spec(
            GhostType::Clyde,
            player,
            dir,
            blinky,
            me,
            corner,
        ) == corner,
{
}

} // verus!
