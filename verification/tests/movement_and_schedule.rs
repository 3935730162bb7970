use pacman::ghost::GhostMode;
use pacman::grid_cell::GridCell;
use pacman::maze::{Maze, TileType};
use pacman::pacman_movement_system::{compute_frame, step, wrap_col, FrameResult, PacmanMovementSystem};
use pacman::player::{Direction, PlayerState};
use pacman::resources::GhostModeResource;

fn c(col: i32, row: i32) -> GridCell {
    GridCell::new(col, row)
}

fn player(cell: GridCell, target: Option<GridCell>, dir: Direction, queued: Direction) -> PlayerState {
    let mut p = PlayerState::new(1, cell);
    p.target_cell = target;
    p.current_direction = dir;
    p.queued_direction = queued;
    p
}

#[test]
fn step_and_wrap() {
    assert_eq!(step(c(3, 4), Direction::Up), c(3, 3));
    assert_eq!(step(c(3, 4), Direction::Left), c(2, 4));
    assert_eq!(step(c(3, 4), Direction::Still), c(3, 4));
    let rows = vec![5usize];
    assert_eq!(wrap_col(c(-1, 5), &rows), c(27, 5));
    assert_eq!(wrap_col(c(28, 5), &rows), c(0, 5));
    assert_eq!(wrap_col(c(4, 5), &rows), c(4, 5));
    assert_eq!(wrap_col(c(-1, 6), &rows), c(-1, 6));
    assert_eq!(wrap_col(c(-1, -2), &rows), c(-1, -2));
    // A negative row is looked up as a usize.
    let odd = vec![(-2i32) as usize];
    assert_eq!(wrap_col(c(-1, -2), &odd), c(27, -2));
}

#[test]
fn steps_fit_only_checks_the_steps_taken() {
    let m = Maze::new();
    let rows = m.tunnel_rows();
    // Mid-tile: no step, whatever the cells.
    let p = player(c(i32::MAX, 1), Some(c(i32::MAX, 1)), Direction::Right, Direction::Still);
    assert!(PacmanMovementSystem::steps_fit(&p, false, Some(Direction::Right), &m, &rows));
    // At a centre, a step to the right from the largest column overflows.
    assert!(!PacmanMovementSystem::steps_fit(&p, true, None, &m, &rows));
    // A step up from the same cell does not; Right is then still tried.
    let q = player(c(i32::MAX, 1), None, Direction::Still, Direction::Still);
    assert!(PacmanMovementSystem::steps_fit(&q, false, Some(Direction::Up), &m, &rows));
    assert!(!PacmanMovementSystem::steps_fit(&q, false, Some(Direction::Right), &m, &rows));
    let r = player(c(1, 1), None, Direction::Left, Direction::Still);
    assert!(PacmanMovementSystem::steps_fit(&r, false, None, &m, &rows));
}

#[test]
fn starting_to_move_from_rest() {
    let m = Maze::new();
    let p = player(c(1, 1), None, Direction::Still, Direction::Still);
    let r = compute_frame(&p, false, Some(Direction::Right), &m, &vec![]);
    assert_eq!(
        r,
        FrameResult {
            new_current_cell: c(1, 1),
            new_target_cell: Some(c(2, 1)),
            new_current_dir: Direction::Right,
            new_queued_dir: Direction::Right,
            snap_to_target: false,
            move_dir: Direction::Right,
        }
    );
}

#[test]
fn input_into_a_wall_from_rest_is_dropped() {
    let m = Maze::new();
    let p = player(c(1, 1), None, Direction::Still, Direction::Still);
    let r = compute_frame(&p, false, Some(Direction::Up), &m, &vec![]);
    assert_eq!(r.new_target_cell, None);
    assert_eq!(r.new_queued_dir, Direction::Still);
    assert_eq!(r.move_dir, Direction::Still);
}

#[test]
fn mid_tile_buffers_the_queued_direction() {
    let m = Maze::new();
    let p = player(c(1, 1), Some(c(2, 1)), Direction::Right, Direction::Right);
    let r = compute_frame(&p, false, Some(Direction::Down), &m, &vec![]);
    assert_eq!(
        r,
        FrameResult {
            new_current_cell: c(1, 1),
            new_target_cell: Some(c(2, 1)),
            new_current_dir: Direction::Right,
            new_queued_dir: Direction::Down,
            snap_to_target: false,
            move_dir: Direction::Right,
        }
    );
}

#[test]
fn blocked_turn_at_centre_keeps_going() {
    let m = Maze::new();
    // (2, 2) is a wall post: the turn down is dropped, Pac-Man goes on right.
    let p = player(c(1, 1), Some(c(2, 1)), Direction::Right, Direction::Down);
    let r = compute_frame(&p, true, None, &m, &vec![]);
    assert_eq!(
        r,
        FrameResult {
            new_current_cell: c(2, 1),
            new_target_cell: Some(c(3, 1)),
            new_current_dir: Direction::Right,
            new_queued_dir: Direction::Still,
            snap_to_target: true,
            move_dir: Direction::Right,
        }
    );
}

#[test]
fn open_turn_at_centre_is_taken() {
    let m = Maze::new();
    let p = player(c(2, 1), Some(c(3, 1)), Direction::Right, Direction::Down);
    let r = compute_frame(&p, true, None, &m, &vec![]);
    assert_eq!(r.new_current_cell, c(3, 1));
    assert_eq!(r.new_target_cell, Some(c(3, 2)));
    assert_eq!(r.new_current_dir, Direction::Down);
    assert_eq!(r.new_queued_dir, Direction::Down);
    assert_eq!(r.move_dir, Direction::Down);
    assert!(r.snap_to_target);
}

#[test]
fn dead_end_stops() {
    let m = Maze::new();
    let p = player(c(25, 1), Some(c(26, 1)), Direction::Right, Direction::Still);
    let r = compute_frame(&p, true, None, &m, &vec![]);
    assert_eq!(r.new_current_cell, c(26, 1));
    assert_eq!(r.new_target_cell, None);
    assert_eq!(r.new_current_dir, Direction::Right);
    assert_eq!(r.move_dir, Direction::Still);
}

#[test]
fn tunnel_wraps_to_other_side() {
    let m = Maze::new();
    let rows = m.tunnel_rows();
    let p = player(c(1, 15), Some(c(0, 15)), Direction::Left, Direction::Still);
    let r = compute_frame(&p, true, None, &m, &rows);
    assert_eq!(r.new_current_cell, c(0, 15));
    assert_eq!(r.new_target_cell, Some(c(27, 15)));
    assert_eq!(r.move_dir, Direction::Left);
    let p = player(c(26, 15), Some(c(27, 15)), Direction::Right, Direction::Still);
    let r = compute_frame(&p, true, None, &m, &rows);
    assert_eq!(r.new_target_cell, Some(c(0, 15)));
}

#[test]
fn no_wrap_on_closed_rows() {
    let mut m = Maze::new();
    m.tiles[5][0] = TileType::Floor;
    let rows = m.tunnel_rows();
    let p = player(c(1, 5), Some(c(0, 5)), Direction::Left, Direction::Still);
    let r = compute_frame(&p, true, None, &m, &rows);
    assert_eq!(r.new_current_cell, c(0, 5));
    assert_eq!(r.new_target_cell, None);
    assert_eq!(r.move_dir, Direction::Still);
}

#[test]
fn apply_frame_stores_grid_state() {
    let m = Maze::new();
    let mut p = player(c(1, 1), None, Direction::Still, Direction::Still);
    p.invulnerability_timer = 40;
    let r = compute_frame(&p, false, Some(Direction::Down), &m, &vec![]);
    PacmanMovementSystem::apply_frame(&mut p, &r);
    assert_eq!(p.current_cell, c(1, 1));
    assert_eq!(p.target_cell, Some(c(1, 2)));
    assert_eq!(p.current_direction, Direction::Down);
    assert_eq!(p.queued_direction, Direction::Down);
    assert_eq!(p.invulnerability_timer, 40);
}

#[test]
fn schedule_start_delay_then_scatter() {
    let mut s = GhostModeResource::new();
    assert_eq!(s.current_mode(), GhostMode::Start);
    s.advance(2999);
    assert!(s.in_start);
    assert_eq!(s.current_mode(), GhostMode::Start);
    s.advance(500);
    assert!(!s.in_start);
    assert_eq!(s.phase_elapsed, 0);
    assert_eq!(s.current_mode(), GhostMode::Scatter);
}

#[test]
fn schedule_alternates_and_ends_in_chase() {
    let mut s = GhostModeResource::new();
    s.advance(3000);
    s.advance(6999);
    assert_eq!(s.current_mode(), GhostMode::Scatter);
    s.advance(1);
    assert_eq!(s.phase_index, 1);
    assert_eq!(s.current_mode(), GhostMode::Chase);
    // 20 s chase, 7 s scatter, 3 s into the next chase
    s.advance(30000);
    assert_eq!(s.phase_index, 3);
    assert_eq!(s.phase_elapsed, 3000);
    assert_eq!(s.current_mode(), GhostMode::Chase);
    s.advance(1_000_000);
    assert_eq!(s.phase_index, 7);
    assert_eq!(s.current_mode(), GhostMode::Chase);
    s.advance(u64::MAX);
    assert_eq!(s.phase_index, 7);
    assert_eq!(s.phase_elapsed, u64::MAX);
}

#[test]
fn schedule_steps_add_up() {
    let mut a = GhostModeResource::new();
    a.advance(3000);
    let mut b = a;
    a.advance(12345);
    a.advance(40000);
    b.advance(52345);
    assert_eq!(a, b);
    assert_eq!(b.phase_index, 3);
    assert_eq!(b.phase_elapsed, 52345 - 34000);
}

#[test]
fn schedule_outside_the_table() {
    let mut s = GhostModeResource { start_elapsed: 0, phase_elapsed: 5, phase_index: 12, in_start: true };
    assert_eq!(s.current_mode(), GhostMode::Start);
    s.advance(10);
    assert_eq!(s.start_elapsed, 10);
    let mut t = GhostModeResource { start_elapsed: 0, phase_elapsed: 5, phase_index: 12, in_start: false };
    t.advance(100_000);
    assert_eq!((t.phase_index, t.phase_elapsed), (12, 100_005));
}
