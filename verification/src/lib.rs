//! Game rules of a Pac-Man clone on a 28x31 tile grid: the maze layout,
//! player movement between tile centres, ghost targeting and mode schedule,
//! collisions, scoring, lives and level progression.

pub mod config;
pub mod grid_cell;
pub mod ghost;
pub mod player;
pub mod maze;
pub mod events;
pub mod ghost_chase_system;
pub mod ghost_flee_system;
pub mod resources;
pub mod pacman_movement_system;
pub mod scoring_system;
pub mod game_state_system;
pub mod ghost_player_collision_system;
pub mod level_complete_system;
pub mod pellet;
pub mod power_pellet;
pub mod pellet_collection_system;
pub mod level_progression_system;
pub mod ghost_mode_system;
pub mod screen_manager_system;
pub mod ai_pawn;
pub mod ghost_ai_system;
