//! Starting a level: what it holds, and what the end of the previous one
//! resets.
use vstd::prelude::*;
use crate::config;
use crate::events::LevelCompleteEvent;
use crate::game_state_system::{pacman_spawn, pacman_spawn_spec};
use crate::ghost::GhostType;
use crate::grid_cell::GridCell;
use crate::maze::{Maze, TileType, GRID_HEIGHT, GRID_WIDTH, generated_tile};
use crate::player::{Direction, PlayerState};
use crate::resources::{GameStateResource, GhostModeResource, ScoreResource};

verus! {

/// The system that ends a level and starts the next.
pub struct LevelProgressionSystem;

/// Number of cells of the grid.
pub const CELL_COUNT: usize = 868;

/// Where a ghost appears and which corner it retreats to.
#[derive(Clone, Copy, PartialEq, Eq, Structural, Debug)]
pub struct GhostPlacement {
    pub ghost_type: GhostType,
    pub spawn_cell: GridCell,
    pub scatter_corner: GridCell,
}

/// What a level holds when it starts.
pub struct LevelLayout {
    /// Wall cells, row by row.
    pub walls: Vec<GridCell>,
    /// Pellet cells, row by row: every floor cell but the power pellet cells.
    pub pellets: Vec<GridCell>,
    /// Power pellet cells, in their configured order.
    pub power_pellets: Vec<GridCell>,
    pub pacman_spawn: GridCell,
    /// Blinky, Pinky, Inky and Clyde, in that order.
    pub ghosts: Vec<GhostPlacement>,
}

/// The cell with row-major index `k`.
pub open spec fn cell_at(k: int) -> GridCell {
    GridCell { col: (k % GRID_WIDTH as int) as i32, row: (k / GRID_WIDTH as int) as i32 }
}

/// The cell holds a wall.
pub open spec fn wall_cell(m: Maze, c: GridCell) -> bool {
    m.tile(c.row as int, c.col as int) == TileType::Wall
}

/// The cell gets a pellet: it is floor and not a power pellet cell.
pub open spec fn pellet_cell(m: Maze, c: GridCell) -> bool {
    m.tile(c.row as int, c.col as int) == TileType::Floor && !config::is_power_pellet_cell_spec(
        c.col as int,
        c.row as int,
    )
}

/// The wall cells among the first `k` in row-major order.
pub open spec fn walls_upto(m: Maze, k: int) -> Seq<GridCell>
    decreases k,
{
    if k <= 0 {
        Seq::empty()
    } else if wall_cell(m, cell_at(k - 1)) {
        walls_upto(m, k - 1).push(cell_at(k - 1))
    } else {
        walls_upto(m, k - 1)
    }
}

/// The pellet cells among the first `k` in row-major order.
pub open spec fn pellets_upto(m: Maze, k: int) -> Seq<GridCell>
    decreases k,
{
    if k <= 0 {
        Seq::empty()
    } else if pellet_cell(m, cell_at(k - 1)) {
        pellets_upto(m, k - 1).push(cell_at(k - 1))
    } else {
        pellets_upto(m, k - 1)
    }
}

/// The power pellet cell `i`.
pub open spec fn power_cell_spec(i: int) -> GridCell {
    GridCell {
        col: config::power_pellet_cell_spec(i).0 as i32,
        row: config::power_pellet_cell_spec(i).1 as i32,
    }
}

/// The placement of a ghost as configured.
pub open spec fn placement_spec(t: GhostType) -> GhostPlacement {
    let s = config::ghost_spawn_spec(t);
    GhostPlacement {
        ghost_type: t,
        spawn_cell: GridCell { col: s.0 as i32, row: s.1 as i32 },
        scatter_corner: GridCell { col: s.2 as i32, row: s.3 as i32 },
    }
}

/// The ghost types in spawn order.
pub open spec fn ghost_order(i: int) -> GhostType {
    if i == 0 {
        GhostType::Blinky
    } else if i == 1 {
        GhostType::Pinky
    } else if i == 2 {
        GhostType::Inky
    } else {
        GhostType::Clyde
    }
}

fn placement(t: GhostType) -> (p: GhostPlacement)
    ensures
        p == placement_spec(t),
{
    let s = config::ghost_spawn(t);
    GhostPlacement {
        ghost_type: t,
        spawn_cell: GridCell::new(s.col as i32, s.row as i32),
        scatter_corner: GridCell::new(s.scatter_col, s.scatter_row),
    }
}

/// The layout of a level on maze `m`.
pub fn level_layout(m: &Maze) -> (l: LevelLayout)
    requires
        m.wf(),
    ensures
        l.walls@ == walls_upto(*m, CELL_COUNT as int),
        l.pellets@ == pellets_upto(*m, CELL_COUNT as int),
        l.power_pellets@.len() == config::POWER_PELLET_COUNT,
        forall|i: int| 0 <= i < config::POWER_PELLET_COUNT ==> #[trigger] l.power_pellets@[i] == power_cell_spec(i),
        l.pacman_spawn == pacman_spawn_spec(),
        l.ghosts@.len() == 4,
        forall|i: int| 0 <= i < 4 ==> #[trigger] l.ghosts@[i] == placement_spec(ghost_order(i)),
{
    let mut walls: Vec<GridCell> = Vec::new();
    let mut pellets: Vec<GridCell> = Vec::new();
    let mut k: usize = 0;
    while k < CELL_COUNT
        invariant
            m.wf(),
            k <= CELL_COUNT,
            walls@ == walls_upto(*m, k as int),
            pellets@ == pellets_upto(*m, k as int),
        decreases CELL_COUNT - k,
    {
        let row = k / GRID_WIDTH;
        let col = k % GRID_WIDTH;
        assert(row < GRID_HEIGHT);
        let cell = GridCell::new(col as i32, row as i32);
        assert(cell == cell_at(k as int));
        let tile = m.tiles[row][col];
        assert(tile == m.tile(cell.row as int, cell.col as int));
        if tile == TileType::Wall {
            walls.push(cell);
        } else if !config::is_power_pellet_cell(col as i32, row as i32) {
            pellets.push(cell);
        }
        k += 1;
    }
    let mut power_pellets: Vec<GridCell> = Vec::new();
    let mut i: usize = 0;
    while i < config::POWER_PELLET_COUNT
        invariant
            i <= config::POWER_PELLET_COUNT,
            power_pellets@.len() == i,
            forall|j: int| 0 <= j < i ==> #[trigger] power_pellets@[j] == power_cell_spec(j),
        decreases config::POWER_PELLET_COUNT - i,
    {
        let (col, row) = config::power_pellet_cell(i);
        power_pellets.push(GridCell::new(col, row));
        i += 1;
    }
    let mut ghosts: Vec<GhostPlacement> = Vec::new();
    ghosts.push(placement(GhostType::Blinky));
    ghosts.push(placement(GhostType::Pinky));
    ghosts.push(placement(GhostType::Inky));
    ghosts.push(placement(GhostType::Clyde));
    LevelLayout { walls, pellets, power_pellets, pacman_spawn: pacman_spawn(), ghosts }
}

/// The game state after a level ends: a game over gives back the starting
/// lives; a cleared level raises the level number.
pub open spec fn state_after_level(event: LevelCompleteEvent, s: GameStateResource) -> GameStateResource {
    if event.is_game_over {
        GameStateResource { lives: config::INITIAL_LIVES, game_over: false, ..s }
    } else {
        GameStateResource { level: (s.level + 1) as u32, ..s }
    }
}

/// The score after a level ends: a game over clears it; the combo always
/// starts afresh.
pub open spec fn score_after_level(event: LevelCompleteEvent, s: ScoreResource) -> ScoreResource {
    ScoreResource { score: if event.is_game_over { 0 } else { s.score }, ghost_combo: 0 }
}

impl LevelProgressionSystem {
    /// Ends a level. After a game over the lives, game-over flag, score and
    /// combo start afresh; after a cleared level the level number grows by
    /// one and the combo starts afresh. Each resource is updated when it is
    /// there.
    pub fn apply_level_complete(
        event: LevelCompleteEvent,
        state: &mut Option<GameStateResource>,
        score: &mut Option<ScoreResource>,
    )
        requires
            !event.is_game_over && (*old(state)) is Some ==> (*old(state))->0.level < u32::MAX,
        ensures
            *final(state) == match *old(state) {
                Some(s) => Some(state_after_level(event, s)),
                None => None,
            },
            *final(score) == match *old(score) {
                Some(s) => Some(score_after_level(event, s)),
                None => None,
            },
    {
        match state {
            Some(s) => {
                if event.is_game_over {
                    s.lives = config::INITIAL_LIVES;
                    s.game_over = false;
                } else {
                    s.level = s.level + 1;
                }
            },
            None => {},
        }
        match score {
            Some(s) => {
                if event.is_game_over {
                    s.score = 0;
                }
                s.ghost_combo = 0;
            },
            None => {},
        }
    }

    /// Puts Pac-Man, now entity `pacman_id`, on his spawn cell, standing
    /// still and not invulnerable.
    pub fn reset_player(player: &mut PlayerState, pacman_id: u32)
        ensures
            final(player).entity_id == pacman_id,
            final(player).current_cell == pacman_spawn_spec(),
            final(player).target_cell is None,
            final(player).current_direction == Direction::Still,
            final(player).queued_direction == Direction::Still,
            final(player).invulnerability_timer == 0,
    {
        player.entity_id = pacman_id;
        player.current_cell = pacman_spawn();
        player.target_cell = None;
        player.current_direction = Direction::Still;
        player.queued_direction = Direction::Still;
        player.invulnerability_timer = 0;
    }

    /// Restarts the ghost mode schedule from its start delay.
    pub fn reset_ghost_modes(mode: &mut GhostModeResource)
        ensures
            *final(mode) == GhostModeResource::new_spec(),
    {
        mode.start_elapsed = 0;
        mode.phase_elapsed = 0;
        mode.phase_index = 0;
        mode.in_start = true;
    }
}

/// A cell is listed among the walls exactly when it is a wall cell met in
/// the first `k` cells.
proof fn lemma_walls_upto_contains(m: Maze, k: int)
    requires
        0 <= k,
    ensures
        forall|j: int| 0 <= j < k && wall_cell(m, #[trigger] cell_at(j)) ==> walls_upto(m, k).contains(cell_at(j)),
        forall|c: GridCell| #[trigger] walls_upto(m, k).contains(c) ==> wall_cell(m, c),
    decreases k,
{
    if k > 0 {
        lemma_walls_upto_contains(m, k - 1);
        let prev = walls_upto(m, k - 1);
        let cur = walls_upto(m, k);
        assert forall|j: int| 0 <= j < k && wall_cell(m, #[trigger] cell_at(j)) implies cur.contains(cell_at(j)) by {
            if j < k - 1 {
                let i = choose|i: int| 0 <= i < prev.len() && prev[i] == cell_at(j);
                assert(cur[i] == prev[i]);
            } else {
                assert(cur[cur.len() - 1] == cell_at(j));
            }
        }
        assert forall|c: GridCell| #[trigger] cur.contains(c) implies wall_cell(m, c) by {
            let i = choose|i: int| 0 <= i < cur.len() && cur[i] == c;
            if i < prev.len() {
                assert(prev[i] == c);
            }
        }
    }
}

/// A cell is listed among the pellets exactly when it is a pellet cell met in
/// the first `k` cells.
proof fn lemma_pellets_upto_contains(m: Maze, k: int)
    requires
        0 <= k,
    ensures
        forall|j: int| 0 <= j < k && pellet_cell(m, #[trigger] cell_at(j)) ==> pellets_upto(m, k).contains(cell_at(j)),
        forall|c: GridCell| #[trigger] pellets_upto(m, k).contains(c) ==> pellet_cell(m, c),
    decreases k,
{
    if k > 0 {
        lemma_pellets_upto_contains(m, k - 1);
        let prev = pellets_upto(m, k - 1);
        let cur = pellets_upto(m, k);
        assert forall|j: int| 0 <= j < k && pellet_cell(m, #[trigger] cell_at(j)) implies cur.contains(cell_at(j)) by {
            if j < k - 1 {
                let i = choose|i: int| 0 <= i < prev.len() && prev[i] == cell_at(j);
                assert(cur[i] == prev[i]);
            } else {
                assert(cur[cur.len() - 1] == cell_at(j));
            }
        }
        assert forall|c: GridCell| #[trigger] cur.contains(c) implies pellet_cell(m, c) by {
            let i = choose|i: int| 0 <= i < cur.len() && cur[i] == c;
            if i < prev.len() {
                assert(prev[i] == c);
            }
        }
    }
}

/// In a level on the generated maze, every cell of the grid holds exactly one
/// of a wall, a pellet or a power pellet.
pub proof fn lemma_level_layout_partition(m: Maze, c: GridCell)
    requires
        m.wf(),
        forall|r: int, col: int|
            0 <= r < GRID_HEIGHT && 0 <= col < GRID_WIDTH ==> #[trigger] m.tile(r, col)
                == generated_tile(r, col),
        0 <= c.col < GRID_WIDTH,
        0 <= c.row < GRID_HEIGHT,
    ensures
        ({
            let w = walls_upto(m, CELL_COUNT as int).contains(c);
            let p = pellets_upto(m, CELL_COUNT as int).contains(c);
            let q = config::is_power_pellet_cell_spec(c.col as int, c.row as int);
            &&& w || p || q
            &&& !(w && p) && !(w && q) && !(p && q)
        }),
{
    let k = c.row * GRID_WIDTH + c.col;
    assert(cell_at(k) == c);
    lemma_walls_upto_contains(m, CELL_COUNT as int);
    lemma_pellets_upto_contains(m, CELL_COUNT as int);
    assert(m.tile(c.row as int, c.col as int) == generated_tile(c.row as int, c.col as int));
    if config::is_power_pellet_cell_spec(c.col as int, c.row as int) {
        let i = choose|i: int|
            0 <= i < config::POWER_PELLET_COUNT && #[trigger] config::power_pellet_cell_spec(i) == (
            c.col as int,
            c.row as int,
        );
        assert(m.tile(c.row as int, c.col as int) == TileType::Floor);
    }
}

/// The end of a level: after a game over the game starts afresh with 3
/// lives, no game over, a score of 0 and the same level number; after a
/// cleared level the level number goes up by one and lives, game-over flag
/// and score stay. The ghost combo always starts afresh.
pub proof fn lemma_level_end(event: LevelCompleteEvent, s: GameStateResource, sc: ScoreResource)
    requires
        !event.is_game_over ==> s.level < u32::MAX,
    ensures
        event.is_game_over ==> state_after_level(event, s) == (GameStateResource {
            lives: 3,
            game_over: false,
            level: s.level,
        }),
        !event.is_game_over ==> state_after_level(event, s).level == s.level + 1
            && state_after_level(event, s).lives == s.lives && state_after_level(event, s).game_over
            == s.game_over,
        event.is_game_over ==> score_after_level(event, sc) == (ScoreResource {
            score: 0,
            ghost_combo: 0,
        }),
        !event.is_game_over ==> score_after_level(event, sc) == (ScoreResource {
            score: sc.score,
            ghost_combo: 0,
        }),
{
}

} // verus!
