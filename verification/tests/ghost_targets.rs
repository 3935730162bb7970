use pacman::events::MoveToEvent;
use pacman::ghost::{GhostIdentity, GhostMode, GhostSnapshot, GhostType, NavAgentInfo};
use pacman::ghost_chase_system::{
    chase_target, clamp_to_grid, clyde_target, find_blinky_cell, inky_target, pinky_target,
    GhostChaseSystem,
};
use pacman::ghost_flee_system::{flee_target, manhattan, GhostFleeSystem};
use pacman::grid_cell::GridCell;
use pacman::maze::{Maze, TileType};
use pacman::player::Direction;

fn c(col: i32, row: i32) -> GridCell {
    GridCell::new(col, row)
}

fn snap(id: u32, t: GhostType, mode: GhostMode, agent: Option<(bool, GridCell)>) -> GhostSnapshot {
    GhostSnapshot {
        entity_id: id,
        identity: GhostIdentity::new(t, c(0, 0)),
        mode,
        agent: agent.map(|(is_idle, current_cell)| NavAgentInfo { is_idle, current_cell }),
    }
}

#[test]
fn clamp_keeps_cells_on_grid() {
    assert_eq!(clamp_to_grid(c(-5, 40)), c(0, 30));
    assert_eq!(clamp_to_grid(c(30, -1)), c(27, 0));
    assert_eq!(clamp_to_grid(c(12, 7)), c(12, 7));
}

#[test]
fn pinky_aims_four_tiles_ahead() {
    assert_eq!(pinky_target(c(11, 11), Direction::Right), c(15, 11));
    assert_eq!(pinky_target(c(11, 11), Direction::Up), c(11, 7));
    assert_eq!(pinky_target(c(26, 10), Direction::Right), c(27, 10));
    assert_eq!(pinky_target(c(11, 11), Direction::Still), c(11, 11));
}

#[test]
fn inky_reflects_blinky_through_pivot() {
    // pivot (11, 9); 2 * pivot - blinky = (22 - 11, 18 - 13)
    assert_eq!(inky_target(c(11, 11), Direction::Up, c(11, 13)), c(11, 5));
    assert_eq!(inky_target(c(1, 1), Direction::Left, c(20, 20)), c(0, 0));
}

#[test]
fn clyde_keeps_his_distance() {
    assert_eq!(manhattan(c(1, 1), c(5, 6)), 9);
    assert_eq!(manhattan(c(5, 6), c(1, 1)), 9);
    assert_eq!(clyde_target(c(1, 1), c(5, 6), c(0, 30)), c(1, 1));
    assert_eq!(clyde_target(c(1, 1), c(5, 5), c(0, 30)), c(0, 30));
}

#[test]
fn chase_target_falls_back_to_player_cell() {
    let m = Maze::new();
    assert_eq!(chase_target(GhostType::Blinky, c(5, 5), Direction::Up, c(1, 1), c(9, 9), c(0, 30), &m), c(5, 5));
    assert_eq!(chase_target(GhostType::Pinky, c(11, 11), Direction::Right, c(1, 1), c(9, 9), c(0, 30), &m), c(15, 11));
    // Pinky's target (27, 11) is on the border wall.
    assert_eq!(chase_target(GhostType::Pinky, c(25, 11), Direction::Right, c(1, 1), c(9, 9), c(0, 30), &m), c(25, 11));
    // Clyde is close: his corner (0, 30) is a wall.
    assert_eq!(chase_target(GhostType::Clyde, c(5, 5), Direction::Up, c(1, 1), c(5, 6), c(0, 30), &m), c(5, 5));
    assert_eq!(chase_target(GhostType::Clyde, c(5, 5), Direction::Up, c(1, 1), c(5, 6), c(1, 29), &m), c(1, 29));
}

#[test]
fn find_blinky_takes_the_first_blinky() {
    let ghosts = vec![
        snap(1, GhostType::Pinky, GhostMode::Chase, Some((true, c(3, 3)))),
        snap(2, GhostType::Blinky, GhostMode::Chase, Some((true, c(7, 7)))),
        snap(3, GhostType::Blinky, GhostMode::Chase, Some((true, c(9, 9)))),
    ];
    assert_eq!(find_blinky_cell(&ghosts), Some(c(7, 7)));
    let no_agent = vec![
        snap(2, GhostType::Blinky, GhostMode::Chase, None),
        snap(3, GhostType::Blinky, GhostMode::Chase, Some((true, c(9, 9)))),
    ];
    assert_eq!(find_blinky_cell(&no_agent), None);
    assert_eq!(find_blinky_cell(&vec![]), None);
}

#[test]
fn chase_requests_only_for_idle_chasing_ghosts() {
    let m = Maze::new();
    let ghosts = vec![
        snap(1, GhostType::Blinky, GhostMode::Chase, Some((true, c(3, 3)))),
        snap(2, GhostType::Pinky, GhostMode::Chase, Some((false, c(5, 5)))),
        snap(3, GhostType::Pinky, GhostMode::Scatter, Some((true, c(5, 5)))),
        snap(4, GhostType::Pinky, GhostMode::Chase, Some((true, c(5, 5)))),
        snap(5, GhostType::Inky, GhostMode::Chase, None),
    ];
    let r = GhostChaseSystem::move_requests(c(11, 11), Direction::Right, &ghosts, &m);
    assert_eq!(
        r,
        vec![
            MoveToEvent { entity_id: 1, target: c(11, 11) },
            MoveToEvent { entity_id: 4, target: c(15, 11) },
        ]
    );
}

#[test]
fn flee_picks_farthest_walkable_neighbour() {
    let m = Maze::new();
    // (2,1) and (1,2) are both 7 away from (5,5): the later one wins.
    assert_eq!(flee_target(c(1, 1), c(5, 5), &m), c(1, 2));
    // right (4,3) and down (3,4) are 3 away, up (3,2) only 1.
    assert_eq!(flee_target(c(3, 3), c(3, 1), &m), c(3, 4));
    assert_eq!(flee_target(c(3, 3), c(9, 4), &m), c(3, 2));
}

#[test]
fn flee_stays_put_when_boxed_in() {
    let mut m = Maze::new();
    m.tiles[1][2] = TileType::Wall;
    m.tiles[2][1] = TileType::Wall;
    assert_eq!(flee_target(c(1, 1), c(5, 5), &m), c(1, 1));
}

#[test]
fn flee_requests_only_for_idle_frightened_ghosts() {
    let m = Maze::new();
    let ghosts = vec![
        snap(1, GhostType::Blinky, GhostMode::Frightened, Some((true, c(3, 3)))),
        snap(2, GhostType::Pinky, GhostMode::Frightened, Some((false, c(3, 3)))),
        snap(3, GhostType::Inky, GhostMode::Chase, Some((true, c(3, 3)))),
    ];
    let r = GhostFleeSystem::move_requests(c(3, 1), &ghosts, &m);
    assert_eq!(r, vec![MoveToEvent { entity_id: 1, target: c(3, 4) }]);
}

#[test]
fn target_overflow_checks() {
    let m = Maze::new();
    let near = vec![snap(1, GhostType::Pinky, GhostMode::Chase, Some((true, c(3, 3))))];
    assert!(GhostChaseSystem::targets_fit(c(11, 11), Direction::Right, &near));
    assert!(!GhostChaseSystem::targets_fit(c(i32::MAX - 2, 11), Direction::Right, &near));
    assert!(GhostChaseSystem::targets_fit(c(i32::MAX - 2, 11), Direction::Left, &near));
    let clyde = vec![snap(1, GhostType::Clyde, GhostMode::Chase, Some((true, c(i32::MIN, 0))))];
    assert!(!GhostChaseSystem::targets_fit(c(1, 1), Direction::Up, &clyde));
    let busy = vec![snap(1, GhostType::Clyde, GhostMode::Chase, Some((false, c(i32::MIN, 0))))];
    assert!(GhostChaseSystem::targets_fit(c(1, 1), Direction::Up, &busy));
    let scared = vec![snap(1, GhostType::Inky, GhostMode::Frightened, Some((true, c(3, 3))))];
    assert!(GhostFleeSystem::targets_fit(c(3, 1), &scared, &m));
    assert!(!GhostFleeSystem::targets_fit(c(i32::MIN, 1), &scared, &m));
    let edge = vec![snap(1, GhostType::Inky, GhostMode::Frightened, Some((true, c(i32::MAX, 3))))];
    assert!(!GhostFleeSystem::targets_fit(c(3, 1), &edge, &m));
}
