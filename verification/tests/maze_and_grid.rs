use pacman::config::{ghost_combo, ghost_spawn, is_power_pellet_cell, power_pellet_cell};
use pacman::ghost::GhostType;
use pacman::grid_cell::GridCell;
use pacman::maze::{Maze, TileType, GRID_HEIGHT, GRID_WIDTH};
use pacman::player::{Direction, PlayerState};

#[test]
fn maze_new_has_walled_border_and_posts() {
    let m = Maze::new();
    assert_eq!(m.tiles.len(), GRID_HEIGHT);
    for row in 0..GRID_HEIGHT {
        assert_eq!(m.tiles[row].len(), GRID_WIDTH);
        for col in 0..GRID_WIDTH {
            let border = row == 0 || row == GRID_HEIGHT - 1 || col == 0 || col == GRID_WIDTH - 1;
            let post = row % 2 == 0 && col % 2 == 0;
            let tunnel_end = row == 15 && (col == 0 || col == GRID_WIDTH - 1);
            let expected = if !tunnel_end && (border || post) { TileType::Wall } else { TileType::Floor };
            assert_eq!(m.tiles[row][col], expected);
        }
    }
}

#[test]
fn maze_counts_walls_and_floor() {
    let m = Maze::new();
    let floor = m.tiles.iter().flatten().filter(|t| **t == TileType::Floor).count();
    assert_eq!(floor, 574);
    assert_eq!(GRID_WIDTH * GRID_HEIGHT - floor, 294);
}

#[test]
fn maze_walkable_cells() {
    let m = Maze::new();
    assert!(m.is_walkable(GridCell::new(1, 1)));
    assert!(m.is_walkable(GridCell::new(13, 23)));
    assert!(!m.is_walkable(GridCell::new(0, 0)));
    assert!(m.is_walkable(GridCell::new(0, 15)));
    assert!(m.is_walkable(GridCell::new(27, 15)));
    assert!(!m.is_walkable(GridCell::new(0, 13)));
    assert!(!m.is_walkable(GridCell::new(2, 2)));
    assert!(!m.is_walkable(GridCell::new(-1, 5)));
    assert!(!m.is_walkable(GridCell::new(28, 5)));
    assert!(!m.is_walkable(GridCell::new(5, 31)));
    assert!(!m.is_walkable(GridCell::new(5, -3)));
}

#[test]
fn generated_maze_has_one_tunnel_through_the_middle() {
    assert_eq!(Maze::new().tunnel_rows(), vec![15]);
}

#[test]
fn tunnel_rows_are_rows_open_on_both_edges() {
    let mut m = Maze::new();
    m.tiles[5][0] = TileType::Floor;
    m.tiles[5][27] = TileType::Floor;
    m.tiles[9][0] = TileType::Floor;
    m.tiles[13][0] = TileType::Floor;
    m.tiles[13][27] = TileType::Floor;
    assert_eq!(m.tunnel_rows(), vec![5, 13, 15]);
    m.tiles[15][27] = TileType::Wall;
    assert_eq!(m.tunnel_rows(), vec![5, 13]);
}

#[test]
fn direction_deltas() {
    assert_eq!(Direction::Up.delta(), (0, -1));
    assert_eq!(Direction::Down.delta(), (0, 1));
    assert_eq!(Direction::Left.delta(), (-1, 0));
    assert_eq!(Direction::Right.delta(), (1, 0));
    assert_eq!(Direction::Still.delta(), (0, 0));
}

#[test]
fn player_state_new_stands_still() {
    let p = PlayerState::new(7, GridCell::new(13, 23));
    assert_eq!(p.entity_id, 7);
    assert_eq!(p.current_cell, GridCell::new(13, 23));
    assert_eq!(p.current_direction, Direction::Still);
    assert_eq!(p.queued_direction, Direction::Still);
    assert_eq!(p.target_cell, None);
    assert_eq!(p.invulnerability_timer, 0);
}

#[test]
fn config_tables() {
    let b = ghost_spawn(GhostType::Blinky);
    assert_eq!((b.col, b.row, b.scatter_col, b.scatter_row), (13, 11, 25, 0));
    let p = ghost_spawn(GhostType::Pinky);
    assert_eq!((p.col, p.row, p.scatter_col, p.scatter_row), (13, 13, 2, 0));
    let i = ghost_spawn(GhostType::Inky);
    assert_eq!((i.col, i.row, i.scatter_col, i.scatter_row), (11, 13, 27, 30));
    let c = ghost_spawn(GhostType::Clyde);
    assert_eq!((c.col, c.row, c.scatter_col, c.scatter_row), (15, 13, 0, 30));
    assert_eq!([ghost_combo(0), ghost_combo(1), ghost_combo(2), ghost_combo(3)], [200, 400, 800, 1600]);
    assert_eq!(power_pellet_cell(0), (1, 3));
    assert_eq!(power_pellet_cell(3), (26, 23));
    assert!(is_power_pellet_cell(26, 3));
    assert!(is_power_pellet_cell(1, 23));
    assert!(!is_power_pellet_cell(3, 1));
    assert!(!is_power_pellet_cell(13, 23));
}
