use pacman::events::{LevelCompleteEvent, PlayerGhostCollisionEvent};
use pacman::game_state_system::{pacman_spawn, DeathOutcome, GameStateSystem};
use pacman::ghost::{GhostIdentity, GhostMode, GhostSnapshot, GhostType, NavAgentInfo};
use pacman::ghost_player_collision_system::GhostPlayerCollisionSystem;
use pacman::grid_cell::GridCell;
use pacman::level_complete_system::LevelCompleteSystem;
use pacman::level_progression_system::{level_layout, LevelProgressionSystem};
use pacman::maze::Maze;
use pacman::pellet::Pellet;
use pacman::pellet_collection_system::PelletCollectionSystem;
use pacman::player::{Direction, PlayerState};
use pacman::power_pellet::PowerPellet;
use pacman::resources::{GameStateResource, GhostModeResource, ScoreResource};
use pacman::scoring_system::ScoringSystem;

fn c(col: i32, row: i32) -> GridCell {
    GridCell::new(col, row)
}

#[test]
fn resources_start_fresh() {
    let g = GameStateResource::new();
    assert_eq!((g.lives, g.game_over, g.level), (3, false, 1));
    let s = ScoreResource::new();
    assert_eq!((s.score, s.ghost_combo), (0, 0));
}

#[test]
fn pellets_and_power_pellets_score() {
    let mut s = ScoreResource::new();
    ScoringSystem::apply_events(&mut s, 3, 0, &vec![]);
    assert_eq!(s.score, 30);
    ScoringSystem::apply_events(&mut s, 0, 1, &vec![]);
    assert_eq!(s.score, 80);
    ScoringSystem::apply_events(&mut s, 0, 0, &vec![]);
    assert_eq!(s.score, 80);
}

#[test]
fn fits_tells_when_points_overflow() {
    let s = ScoreResource { score: u32::MAX - 30, ghost_combo: 0 };
    assert!(ScoringSystem::fits(&s, 3, 0, &vec![]));
    assert!(!ScoringSystem::fits(&s, 4, 0, &vec![]));
    assert!(ScoringSystem::fits(&s, 3, 0, &vec![false, false]));
    assert!(!ScoringSystem::fits(&s, 0, 0, &vec![true]));
    let c = ScoreResource { score: 0, ghost_combo: u32::MAX };
    assert!(ScoringSystem::fits(&c, 0, 0, &vec![false]));
    assert!(!ScoringSystem::fits(&c, 0, 0, &vec![true]));
    assert!(ScoringSystem::fits(&c, 0, 1, &vec![true]));
}

#[test]
fn ghost_combo_doubles_up_to_1600() {
    let mut s = ScoreResource::new();
    ScoringSystem::apply_events(&mut s, 0, 1, &vec![true, false, true, true, true, true]);
    assert_eq!(s.score, 50 + 200 + 400 + 800 + 1600 + 1600);
    assert_eq!(s.ghost_combo, 5);
}

#[test]
fn ghost_combo_carries_over_frames_until_power_pellet() {
    let mut s = ScoreResource::new();
    ScoringSystem::apply_events(&mut s, 0, 0, &vec![true]);
    assert_eq!(s.score, 200);
    ScoringSystem::apply_events(&mut s, 0, 0, &vec![true]);
    assert_eq!(s.score, 600);
    ScoringSystem::apply_events(&mut s, 1, 1, &vec![true]);
    assert_eq!(s.score, 600 + 10 + 50 + 200);
    assert_eq!(s.ghost_combo, 1);
}

#[test]
fn deaths_cost_lives_until_game_over() {
    let mut state = Some(GameStateResource::new());
    let mut start = PlayerState::new(9, c(5, 5));
    start.current_direction = Direction::Left;
    start.target_cell = Some(c(4, 5));
    let mut p = Some(start);
    let hit = PlayerGhostCollisionEvent { ghost_id: 3, is_frightened: false };
    assert_eq!(GameStateSystem::on_collision(hit, &mut state, &mut p), DeathOutcome::Respawned);
    assert_eq!(state.unwrap().lives, 2);
    let q = p.unwrap();
    assert_eq!(q.current_cell, pacman_spawn());
    assert_eq!(q.current_cell, c(13, 23));
    assert_eq!(q.target_cell, None);
    assert_eq!(q.current_direction, Direction::Still);
    assert_eq!(q.invulnerability_timer, 1000);
    assert_eq!(q.entity_id, 9);
    assert_eq!(GameStateSystem::on_collision(hit, &mut state, &mut p), DeathOutcome::Respawned);
    assert_eq!(state.unwrap().lives, 1);
    p = Some(PlayerState { current_cell: c(3, 3), ..q });
    assert_eq!(GameStateSystem::on_collision(hit, &mut state, &mut p), DeathOutcome::GameOver);
    assert_eq!(state.unwrap().lives, 0);
    assert!(state.unwrap().game_over);
    assert_eq!(p.unwrap().current_cell, c(3, 3));
    assert_eq!(GameStateSystem::on_collision(hit, &mut state, &mut p), DeathOutcome::GameOver);
    assert_eq!(state.unwrap().lives, 0);
}

#[test]
fn collision_with_missing_resources() {
    let hit = PlayerGhostCollisionEvent { ghost_id: 3, is_frightened: false };
    let mut none_state: Option<GameStateResource> = None;
    let mut p = Some(PlayerState::new(9, c(5, 5)));
    assert_eq!(GameStateSystem::on_collision(hit, &mut none_state, &mut p), DeathOutcome::Respawned);
    assert_eq!(p.unwrap().current_cell, c(13, 23));
    let mut state = Some(GameStateResource::new());
    let mut none_player: Option<PlayerState> = None;
    assert_eq!(GameStateSystem::on_collision(hit, &mut state, &mut none_player), DeathOutcome::NoPlayer);
    assert_eq!(state.unwrap().lives, 2);
    assert_eq!(none_player, None);
}

#[test]
fn frightened_ghost_does_not_hurt() {
    let mut state = Some(GameStateResource::new());
    let mut p = Some(PlayerState::new(9, c(5, 5)));
    let eat = PlayerGhostCollisionEvent { ghost_id: 3, is_frightened: true };
    assert_eq!(GameStateSystem::on_collision(eat, &mut state, &mut p), DeathOutcome::Survived);
    assert_eq!(state.unwrap().lives, 3);
    assert_eq!(p.unwrap().current_cell, c(5, 5));
}

#[test]
fn invulnerability_counts_down() {
    let mut p = PlayerState::new(1, c(1, 1));
    GameStateSystem::respawn_player(&mut p);
    GameStateSystem::tick_invulnerability(&mut p, 400);
    assert_eq!(p.invulnerability_timer, 600);
    GameStateSystem::tick_invulnerability(&mut p, 700);
    assert_eq!(p.invulnerability_timer, -100);
    GameStateSystem::tick_invulnerability(&mut p, 700);
    assert_eq!(p.invulnerability_timer, -100);
}

#[test]
fn lose_life_saturates() {
    let mut s = GameStateResource { lives: 0, game_over: true, level: 4 };
    assert!(GameStateSystem::lose_life(&mut s));
    assert_eq!(s.lives, 0);
    let mut s = GameStateResource { lives: 2, game_over: false, level: 4 };
    assert!(!GameStateSystem::lose_life(&mut s));
    assert_eq!((s.lives, s.game_over, s.level), (1, false, 4));
}

fn ghost(id: u32, mode: GhostMode, cell: Option<GridCell>) -> GhostSnapshot {
    GhostSnapshot {
        entity_id: id,
        identity: GhostIdentity::new(GhostType::Inky, c(27, 30)),
        mode,
        agent: cell.map(|current_cell| NavAgentInfo { is_idle: true, current_cell }),
    }
}

#[test]
fn collisions_reported_for_ghosts_on_player_cell() {
    let mut state = GameStateResource::new();
    let p = PlayerState::new(1, c(5, 5));
    let ghosts = vec![
        ghost(10, GhostMode::Chase, Some(c(5, 5))),
        ghost(11, GhostMode::Chase, Some(c(5, 6))),
        ghost(12, GhostMode::Frightened, Some(c(5, 5))),
        ghost(13, GhostMode::Scatter, None),
    ];
    let e = GhostPlayerCollisionSystem::detect(&mut state, Some(p), &ghosts);
    assert_eq!(
        e,
        vec![
            PlayerGhostCollisionEvent { ghost_id: 10, is_frightened: false },
            PlayerGhostCollisionEvent { ghost_id: 12, is_frightened: true },
        ]
    );
    assert_eq!(state, GameStateResource::new());
}

#[test]
fn invulnerable_player_is_not_caught() {
    let mut state = GameStateResource::new();
    let mut p = PlayerState::new(1, c(5, 5));
    p.invulnerability_timer = 1;
    let ghosts = vec![ghost(10, GhostMode::Chase, Some(c(5, 5)))];
    assert!(GhostPlayerCollisionSystem::detect(&mut state, Some(p), &ghosts).is_empty());
}

#[test]
fn game_over_restarts_with_three_lives() {
    let mut state = GameStateResource { lives: 0, game_over: true, level: 7 };
    let p = PlayerState::new(1, c(5, 5));
    let ghosts = vec![ghost(10, GhostMode::Chase, Some(c(5, 5)))];
    assert!(GhostPlayerCollisionSystem::detect(&mut state, Some(p), &ghosts).is_empty());
    assert_eq!(state, GameStateResource { lives: 3, game_over: false, level: 7 });
}

#[test]
fn no_collisions_without_player() {
    let mut state = GameStateResource::new();
    let ghosts = vec![ghost(10, GhostMode::Chase, Some(c(5, 5)))];
    assert!(GhostPlayerCollisionSystem::detect(&mut state, None, &ghosts).is_empty());
    let mut over = GameStateResource { lives: 0, game_over: true, level: 2 };
    assert!(GhostPlayerCollisionSystem::detect(&mut over, None, &ghosts).is_empty());
    assert_eq!(over, GameStateResource { lives: 3, game_over: false, level: 2 });
}

#[test]
fn level_complete_conditions() {
    assert_eq!(LevelCompleteSystem::check(true, 10), Some(LevelCompleteEvent { is_game_over: true }));
    assert_eq!(LevelCompleteSystem::check(false, 0), Some(LevelCompleteEvent { is_game_over: false }));
    assert_eq!(LevelCompleteSystem::check(false, 3), None);
}

#[test]
fn level_cleared_advances_level() {
    let mut state = Some(GameStateResource { lives: 2, game_over: false, level: 1 });
    let mut score = Some(ScoreResource { score: 1234, ghost_combo: 3 });
    LevelProgressionSystem::apply_level_complete(LevelCompleteEvent { is_game_over: false }, &mut state, &mut score);
    assert_eq!(state, Some(GameStateResource { lives: 2, game_over: false, level: 2 }));
    assert_eq!(score, Some(ScoreResource { score: 1234, ghost_combo: 0 }));
}

#[test]
fn level_end_updates_each_resource_present() {
    let mut state: Option<GameStateResource> = None;
    let mut score = Some(ScoreResource { score: 1234, ghost_combo: 3 });
    LevelProgressionSystem::apply_level_complete(LevelCompleteEvent { is_game_over: true }, &mut state, &mut score);
    assert_eq!(state, None);
    assert_eq!(score, Some(ScoreResource { score: 0, ghost_combo: 0 }));
    let mut state = Some(GameStateResource { lives: 0, game_over: true, level: 3 });
    let mut no_score: Option<ScoreResource> = None;
    LevelProgressionSystem::apply_level_complete(LevelCompleteEvent { is_game_over: true }, &mut state, &mut no_score);
    assert_eq!(state, Some(GameStateResource { lives: 3, game_over: false, level: 3 }));
    assert_eq!(no_score, None);
}

#[test]
fn game_over_resets_lives_and_score() {
    let mut state = Some(GameStateResource { lives: 0, game_over: true, level: 5 });
    let mut score = Some(ScoreResource { score: 1234, ghost_combo: 3 });
    LevelProgressionSystem::apply_level_complete(LevelCompleteEvent { is_game_over: true }, &mut state, &mut score);
    assert_eq!(state, Some(GameStateResource { lives: 3, game_over: false, level: 5 }));
    assert_eq!(score, Some(ScoreResource { score: 0, ghost_combo: 0 }));
}

#[test]
fn level_reset_of_player_and_ghost_modes() {
    let mut p = PlayerState::new(1, c(2, 2));
    p.invulnerability_timer = 500;
    p.queued_direction = Direction::Up;
    LevelProgressionSystem::reset_player(&mut p, 42);
    assert_eq!(p, PlayerState::new(42, c(13, 23)));
    let mut g = GhostModeResource::new();
    g.advance(100_000);
    g.advance(100_000);
    LevelProgressionSystem::reset_ghost_modes(&mut g);
    assert_eq!(g, GhostModeResource::new());
}

#[test]
fn level_layout_of_generated_maze() {
    let m = Maze::new();
    let l = level_layout(&m);
    assert_eq!(l.walls.len(), 294);
    assert_eq!(l.pellets.len(), 570);
    assert!(l.pellets.contains(&c(0, 15)) && l.pellets.contains(&c(27, 15)));
    assert_eq!(l.walls.len() + l.pellets.len() + l.power_pellets.len(), 31 * 28);
    for cell in &l.power_pellets {
        assert!(!l.walls.contains(cell) && !l.pellets.contains(cell));
    }
    assert_eq!(l.walls[0], c(0, 0));
    assert_eq!(l.pellets[0], c(1, 1));
    assert_eq!(l.pellets[1], c(2, 1));
    assert!(!l.pellets.contains(&c(1, 3)));
    assert!(l.pellets.contains(&c(13, 23)));
    assert_eq!(l.power_pellets, vec![c(1, 3), c(26, 3), c(1, 23), c(26, 23)]);
    assert_eq!(l.pacman_spawn, c(13, 23));
    let g: Vec<(GhostType, GridCell, GridCell)> =
        l.ghosts.iter().map(|g| (g.ghost_type, g.spawn_cell, g.scatter_corner)).collect();
    assert_eq!(
        g,
        vec![
            (GhostType::Blinky, c(13, 11), c(25, 0)),
            (GhostType::Pinky, c(13, 13), c(2, 0)),
            (GhostType::Inky, c(11, 13), c(27, 30)),
            (GhostType::Clyde, c(15, 13), c(0, 30)),
        ]
    );
}

#[test]
fn pellets_on_player_cell_are_eaten() {
    let pellets = vec![
        (5, Pellet::new(c(1, 1))),
        (6, Pellet::new(c(2, 1))),
        (7, Pellet::new(c(1, 1))),
    ];
    assert_eq!(PelletCollectionSystem::colliding(c(1, 1), &pellets), vec![5, 7]);
    assert!(PelletCollectionSystem::colliding(c(9, 9), &pellets).is_empty());
    assert_eq!(PowerPellet::new(c(1, 3)).cell, c(1, 3));
}

#[test]
fn respawn_window_then_caught_again() {
    let mut st = Some(GameStateResource::new());
    let mut pl = Some(PlayerState::new(1, c(5, 5)));
    let hit = PlayerGhostCollisionEvent { ghost_id: 10, is_frightened: false };
    assert_eq!(GameStateSystem::on_collision(hit, &mut st, &mut pl), DeathOutcome::Respawned);
    let mut state = st.unwrap();
    let mut p = pl.unwrap();
    let ghosts = vec![ghost(10, GhostMode::Chase, Some(c(13, 23)))];
    assert!(GhostPlayerCollisionSystem::detect(&mut state, Some(p), &ghosts).is_empty());
    GameStateSystem::tick_invulnerability(&mut p, 999);
    assert!(GhostPlayerCollisionSystem::detect(&mut state, Some(p), &ghosts).is_empty());
    GameStateSystem::tick_invulnerability(&mut p, 1);
    assert_eq!(
        GhostPlayerCollisionSystem::detect(&mut state, Some(p), &ghosts),
        vec![PlayerGhostCollisionEvent { ghost_id: 10, is_frightened: false }]
    );
}
