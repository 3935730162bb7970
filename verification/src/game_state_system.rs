//! Lives, death and respawn of Pac-Man.
use vstd::prelude::*;
use crate::config;
use crate::events::PlayerGhostCollisionEvent;
use crate::grid_cell::GridCell;
use crate::player::{Direction, PlayerState};
use crate::resources::GameStateResource;

verus! {

/// The system that counts lives and respawns Pac-Man.
pub struct GameStateSystem;

/// What a collision with a ghost did.
#[derive(Clone, Copy, PartialEq, Eq, Structural, Debug)]
pub enum DeathOutcome {
    /// The ghost was frightened: Pac-Man survives.
    Survived,
    /// The last life was lost.
    GameOver,
    /// A life was lost and Pac-Man is back on his spawn cell.
    Respawned,
    /// A life was lost, but there is no Pac-Man to put back.
    NoPlayer,
}

/// Pac-Man's spawn cell.
pub open spec fn pacman_spawn_spec() -> GridCell {
    GridCell { col: config::PACMAN_COL as i32, row: config::PACMAN_ROW as i32 }
}

/// The cell where Pac-Man appears.
pub fn pacman_spawn() -> (c: GridCell)
    ensures
        c == pacman_spawn_spec(),
{
    GridCell::new(13, 23)
}

/// Pac-Man after `delta` milliseconds of invulnerability count-down: a
/// running timer goes down by `delta`, possibly below zero.
pub open spec fn tick_spec(p: PlayerState, delta: int) -> PlayerState {
    PlayerState {
        invulnerability_timer: if p.invulnerability_timer > 0 {
            (p.invulnerability_timer - delta) as i64
        } else {
            p.invulnerability_timer
        },
        ..p
    }
}

/// The game state after losing a life: lives never go below zero, and the
/// game is over when none is left.
pub open spec fn lost_life(s: GameStateResource) -> GameStateResource {
    let lives = if s.lives > 0 {
        (s.lives - 1) as u32
    } else {
        0
    };
    GameStateResource { lives, game_over: s.game_over || lives == 0, ..s }
}

/// Pac-Man put back on his spawn cell, standing still, briefly invulnerable.
pub open spec fn respawn_spec(p: PlayerState) -> PlayerState {
    PlayerState {
        current_cell: pacman_spawn_spec(),
        target_cell: None,
        current_direction: Direction::Still,
        queued_direction: Direction::Still,
        invulnerability_timer: config::INVULNERABILITY_AFTER_RESPAWN_MS,
        ..p
    }
}

/// The outcome of a collision, with the game state and Pac-Man after it.
pub open spec fn collision_outcome(
    event: PlayerGhostCollisionEvent,
    state: Option<GameStateResource>,
    player: Option<PlayerState>,
) -> (DeathOutcome, Option<GameStateResource>, Option<PlayerState>) {
    if event.is_frightened {
        (DeathOutcome::Survived, state, player)
    } else {
        let state2 = match state {
            Some(s) => Some(lost_life(s)),
            None => None,
        };
        if state2 is Some && state2->0.lives == 0 {
            (DeathOutcome::GameOver, state2, player)
        } else {
            match player {
                Some(p) => (DeathOutcome::Respawned, state2, Some(respawn_spec(p))),
                None => (DeathOutcome::NoPlayer, state2, None),
            }
        }
    }
}

/// `after` is `before` back on the spawn cell (13, 23) with no target, no
/// direction, nothing queued and one second of invulnerability.
pub open spec fn respawn_rules(before: PlayerState, after: PlayerState) -> bool {
    &&& after.entity_id == before.entity_id
    &&& after.current_cell.col == 13 && after.current_cell.row == 23
    &&& after.target_cell is None
    &&& after.current_direction == Direction::Still
    &&& after.queued_direction == Direction::Still
    &&& after.invulnerability_timer == 1000
}

/// A collision with a ghost that is not frightened costs one life; while a
/// life is left, Pac-Man (when present) respawns standing still on his
/// spawn cell with nothing queued, and the last life ends the game with
/// Pac-Man left where he was. A frightened ghost changes nothing.
pub proof fn lemma_death_and_respawn(
    event: PlayerGhostCollisionEvent,
    state: GameStateResource,
    player: PlayerState,
)
    ensures
        ({
            let (outcome, s2, p2) = collision_outcome(event, Some(state), Some(player));
            &&& event.is_frightened ==> outcome == DeathOutcome::Survived && s2 == Some(state)
                && p2 == Some(player)
            &&& !event.is_frightened ==> s2 is Some && s2->0.level == state.level && s2->0.lives
                == (if state.lives > 0 { state.lives - 1 } else { 0 })
            &&& !event.is_frightened && state.lives > 1 ==> outcome == DeathOutcome::Respawned
                && p2 is Some && respawn_rules(player, p2->0) && s2->0.game_over == state.game_over
            &&& !event.is_frightened && state.lives <= 1 ==> outcome == DeathOutcome::GameOver
                && s2->0.game_over && p2 == Some(player)
        }),
{
}

impl GameStateSystem {
    /// Counts down Pac-Man's invulnerability by `delta` milliseconds while it
    /// runs; a timer that is not above zero is left alone.
    pub fn tick_invulnerability(player: &mut PlayerState, delta: u64)
        requires
            old(player).invulnerability_timer > 0 ==> old(player).invulnerability_timer - delta
                >= i64::MIN,
        ensures
            *final(player) == tick_spec(*old(player), delta as int),
    {
        if player.invulnerability_timer > 0 {
            let t = player.invulnerability_timer as i128 - delta as i128;
            player.invulnerability_timer = t as i64;
        }
    }

    /// Takes one life; returns whether that was the last one, in which case
    /// the game is over. Lives never go below zero.
    pub fn lose_life(state: &mut GameStateResource) -> (game_over: bool)
        ensures
            *final(state) == lost_life(*old(state)),
            game_over == (final(state).lives == 0),
    {
        state.lives = state.lives.saturating_sub(1);
        if state.lives == 0 {
            state.game_over = true;
            return true;
        }
        false
    }

    /// Puts Pac-Man back on his spawn cell, standing still, briefly
    /// invulnerable.
    pub fn respawn_player(player: &mut PlayerState)
        ensures
            *final(player) == respawn_spec(*old(player)),
            final(player).entity_id == old(player).entity_id,
            final(player).current_cell.col == 13 && final(player).current_cell.row == 23,
            final(player).target_cell is None,
            final(player).current_direction == Direction::Still,
            final(player).queued_direction == Direction::Still,
            final(player).invulnerability_timer == 1000,
    {
        player.current_cell = pacman_spawn();
        player.target_cell = None;
        player.current_direction = Direction::Still;
        player.queued_direction = Direction::Still;
        player.invulnerability_timer = config::INVULNERABILITY_AFTER_RESPAWN_MS;
    }

    /// Handles a collision with a ghost. A frightened ghost does not hurt;
    /// any other costs a life (when the game state is there), and Pac-Man
    /// (when he is there) respawns unless it was the last life.
    pub fn on_collision(
        event: PlayerGhostCollisionEvent,
        state: &mut Option<GameStateResource>,
        player: &mut Option<PlayerState>,
    ) -> (outcome: DeathOutcome)
        ensures
            (outcome, *final(state), *final(player)) == collision_outcome(
                event,
                *old(state),
                *old(player),
            ),
            event.is_frightened ==> outcome == DeathOutcome::Survived && *final(state) == *old(state)
                && *final(player) == *old(player),
            outcome == DeathOutcome::Respawned ==> respawn_rules(
                (*old(player))->0,
                (*final(player))->0,
            ),
    {
        if event.is_frightened {
            return DeathOutcome::Survived;
        }
        let mut over = false;
        match state {
            Some(s) => {
                over = Self::lose_life(s);
            },
            None => {},
        }
        if over {
            return DeathOutcome::GameOver;
        }
        match player {
            Some(p) => {
                Self::respawn_player(p);
                DeathOutcome::Respawned
            },
            None => DeathOutcome::NoPlayer,
        }
    }
}

} // verus!
