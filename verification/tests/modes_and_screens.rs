use std::sync::atomic::AtomicBool;
use std::sync::Arc;

use pacman::ai_pawn::AIController;
use pacman::events::MoveToEvent;
use pacman::ghost::{GhostMode, NavAgentInfo};
use pacman::ghost_ai_system::{ControlledGhost, GhostAISystem};
use pacman::ghost_mode_system::{
    detect_mode, transition, GhostFrame, GhostMarkers, GhostFrameAction, GhostModeSystem, PowerPelletAction, Tint,
    TransitionPlan, Wandering,
};
use pacman::grid_cell::GridCell;
use pacman::maze::Maze;
use pacman::resources::GameScreen;
use pacman::screen_manager_system::{title_start_triggered, InputAction, ScreenManagerSystem};

#[test]
fn detect_mode_priority() {
    assert_eq!(detect_mode(true, true, true), GhostMode::Chase);
    assert_eq!(detect_mode(false, true, true), GhostMode::Scatter);
    assert_eq!(detect_mode(false, false, true), GhostMode::Frightened);
    assert_eq!(detect_mode(false, false, false), GhostMode::Start);
}

#[test]
fn transition_plans() {
    assert_eq!(
        transition(GhostMode::Scatter, GhostMode::Chase),
        TransitionPlan {
            remove_marker: GhostMode::Scatter,
            add_marker: GhostMode::Chase,
            tint: Tint::Chase,
            wandering: Wandering::Stop,
            clear_navigation: false,
            frightened_timer: 0,
        }
    );
    assert_eq!(
        transition(GhostMode::Chase, GhostMode::Frightened),
        TransitionPlan {
            remove_marker: GhostMode::Chase,
            add_marker: GhostMode::Frightened,
            tint: Tint::Frightened,
            wandering: Wandering::Stop,
            clear_navigation: true,
            frightened_timer: 6000,
        }
    );
    let p = transition(GhostMode::Frightened, GhostMode::Scatter);
    assert_eq!((p.tint, p.wandering, p.clear_navigation), (Tint::Plain, Wandering::Ensure, false));
    let p = transition(GhostMode::Frightened, GhostMode::Start);
    assert_eq!((p.tint, p.wandering), (Tint::Plain, Wandering::Ensure));
}

#[test]
fn frame_actions_follow_global_mode() {
    assert_eq!(
        GhostModeSystem::frame_action(GhostMode::Scatter, None, 16, GhostMode::Chase),
        GhostFrameAction::Transition { from: GhostMode::Scatter, to: GhostMode::Chase }
    );
    assert_eq!(GhostModeSystem::frame_action(GhostMode::Chase, None, 16, GhostMode::Chase), GhostFrameAction::Keep);
    assert_eq!(
        GhostModeSystem::frame_action(GhostMode::Frightened, Some(100), 16, GhostMode::Chase),
        GhostFrameAction::SetFrightenedTimer { timer: 84 }
    );
    assert_eq!(
        GhostModeSystem::frame_action(GhostMode::Frightened, Some(16), 16, GhostMode::Scatter),
        GhostFrameAction::Transition { from: GhostMode::Frightened, to: GhostMode::Scatter }
    );
    assert_eq!(
        GhostModeSystem::frame_action(GhostMode::Frightened, None, 0, GhostMode::Chase),
        GhostFrameAction::Transition { from: GhostMode::Frightened, to: GhostMode::Chase }
    );
    let frames = vec![
        GhostFrame { entity_id: 1, current_mode: GhostMode::Start, frightened_timer: None },
        GhostFrame { entity_id: 2, current_mode: GhostMode::Scatter, frightened_timer: None },
    ];
    assert_eq!(
        GhostModeSystem::frame_actions(&frames, 16, GhostMode::Scatter),
        vec![
            (1, GhostFrameAction::Transition { from: GhostMode::Start, to: GhostMode::Scatter }),
            (2, GhostFrameAction::Keep),
        ]
    );
}

#[test]
fn global_mode_announcements() {
    let mut s = GhostModeSystem::new();
    assert!(!s.note_global_mode(GhostMode::Start));
    assert!(s.note_global_mode(GhostMode::Scatter));
    assert!(!s.note_global_mode(GhostMode::Scatter));
    assert!(!s.note_global_mode(GhostMode::Frightened));
    assert!(s.note_global_mode(GhostMode::Chase));
}

#[test]
fn power_pellet_frightens_every_ghost() {
    let ghosts = vec![(1, GhostMode::Chase), (2, GhostMode::Frightened), (3, GhostMode::Start)];
    assert_eq!(
        GhostModeSystem::power_pellet_actions(&ghosts),
        vec![
            (1, PowerPelletAction::Frighten { from: GhostMode::Chase }),
            (2, PowerPelletAction::RestartFright { timer: 6000 }),
            (3, PowerPelletAction::Frighten { from: GhostMode::Start }),
        ]
    );
}

#[test]
fn screen_pauses_outside_play() {
    let mut s = ScreenManagerSystem::new(Arc::new(AtomicBool::new(false)));
    assert!(!s.is_pausable());
    let d = s.update(Some(GameScreen::Playing));
    assert!(!d.paused && !d.start_game);
    let d = s.update(Some(GameScreen::GameOver { timer: 5000 }));
    assert!(d.paused && !d.start_game);
    let d = s.update(None);
    assert!(d.paused && !d.start_game);
    let d = s.update(Some(GameScreen::Title));
    assert!(d.paused && !d.start_game);
}

#[test]
fn confirm_on_title_starts_game_once() {
    let mut s = ScreenManagerSystem::new(Arc::new(AtomicBool::new(false)));
    s.on_input_actions(&vec![InputAction::MoveLeft, InputAction::Confirm]);
    assert!(s.update(Some(GameScreen::Title)).start_game);
    assert!(!s.update(Some(GameScreen::Title)).start_game);
}

#[test]
fn confirm_outside_title_is_dropped() {
    let mut s = ScreenManagerSystem::new(Arc::new(AtomicBool::new(false)));
    s.on_input_actions(&vec![InputAction::Confirm]);
    assert!(!s.update(Some(GameScreen::Playing)).start_game);
    assert!(!s.update(Some(GameScreen::Title)).start_game);
}

#[test]
fn start_button_signal_starts_game_and_is_lowered() {
    let signal = Arc::new(AtomicBool::new(true));
    let mut s = ScreenManagerSystem::new(Arc::clone(&signal));
    assert!(s.update(Some(GameScreen::Title)).start_game);
    assert!(!signal.load(std::sync::atomic::Ordering::Relaxed));
    assert!(!s.update(Some(GameScreen::Title)).start_game);
    assert!(title_start_triggered(true, false));
    assert!(title_start_triggered(false, true));
    assert!(!title_start_triggered(false, false));
}

struct GoHome;

impl AIController for GoHome {
    fn is_target(&self, current_cell: GridCell, _nav: Maze, target: GridCell) -> bool {
        target == GridCell::new(current_cell.col, 1)
    }

    fn target_tile(&self, current_cell: GridCell, _nav: &Maze) -> GridCell {
        GridCell::new(current_cell.col, 1)
    }
}

#[test]
fn ai_controllers_steer_idle_ghosts() {
    let m = Maze::new();
    let ghosts = vec![
        ControlledGhost { entity_id: 1, controller: GoHome },
        ControlledGhost { entity_id: 2, controller: GoHome },
        ControlledGhost { entity_id: 3, controller: GoHome },
    ];
    let agents = vec![
        Some(NavAgentInfo { is_idle: true, current_cell: GridCell::new(5, 7) }),
        Some(NavAgentInfo { is_idle: false, current_cell: GridCell::new(5, 7) }),
        None,
    ];
    assert_eq!(
        GhostAISystem::move_requests(&ghosts, &agents, &m),
        vec![MoveToEvent { entity_id: 1, target: GridCell::new(5, 1) }]
    );
}

#[test]
fn markers_follow_transitions() {
    let mut m = GhostMarkers { chase: false, scatter: false, frightened: None };
    assert_eq!(m.mode(), GhostMode::Start);
    m.apply_plan(&transition(m.mode(), GhostMode::Scatter));
    assert_eq!(m, GhostMarkers { chase: false, scatter: true, frightened: None });
    m.apply_plan(&transition(m.mode(), GhostMode::Frightened));
    assert_eq!(m, GhostMarkers { chase: false, scatter: false, frightened: Some(6000) });
    assert_eq!(m.mode(), GhostMode::Frightened);
    m.apply_plan(&transition(m.mode(), GhostMode::Chase));
    assert_eq!(m, GhostMarkers { chase: true, scatter: false, frightened: None });
    m.apply_plan(&transition(m.mode(), GhostMode::Start));
    assert_eq!(m, GhostMarkers { chase: false, scatter: false, frightened: None });
}
