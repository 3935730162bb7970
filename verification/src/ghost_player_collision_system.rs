//! Detection of Pac-Man meeting a ghost.
use vstd::prelude::*;
use crate::config;
use crate::events::PlayerGhostCollisionEvent;
use crate::ghost::{GhostMode, GhostSnapshot};
use crate::grid_cell::GridCell;
use crate::game_state_system::{respawn_spec, tick_spec};
use crate::player::PlayerState;
use crate::resources::GameStateResource;

verus! {

/// The system that notices Pac-Man and a ghost on the same cell.
pub struct GhostPlayerCollisionSystem;

/// The ghost has a navigation agent standing on `cell`.
pub open spec fn ghost_on(g: GhostSnapshot, cell: GridCell) -> bool {
    g.agent is Some && g.agent->0.current_cell == cell
}

/// One event per ghost among the first `n` that stands on `cell`, in order.
pub open spec fn collisions_upto(ghosts: Seq<GhostSnapshot>, cell: GridCell, n: int) -> Seq<
    PlayerGhostCollisionEvent,
>
    decreases n,
{
    if n <= 0 {
        Seq::empty()
    } else {
        let prev = collisions_upto(ghosts, cell, n - 1);
        let g = ghosts[n - 1];
        if ghost_on(g, cell) {
            prev.push(
                PlayerGhostCollisionEvent {
                    ghost_id: g.entity_id,
                    is_frightened: g.mode == GhostMode::Frightened,
                },
            )
        } else {
            prev
        }
    }
}

/// The collisions reported in a frame: none after a game over, without
/// Pac-Man, or while he is invulnerable; otherwise every ghost on his cell,
/// in order.
pub open spec fn collision_events_spec(
    state: GameStateResource,
    player: Option<PlayerState>,
    ghosts: Seq<GhostSnapshot>,
) -> Seq<PlayerGhostCollisionEvent> {
    match player {
        Some(p) => if state.game_over || p.invulnerability_timer > 0 {
            Seq::empty()
        } else {
            collisions_upto(ghosts, p.current_cell, ghosts.len() as int)
        },
        None => Seq::empty(),
    }
}

/// The game state after a frame of collision detection: a game over is
/// followed by a fresh game with full lives.
pub open spec fn state_after_detect(state: GameStateResource) -> GameStateResource {
    if state.game_over {
        GameStateResource { game_over: false, lives: config::INITIAL_LIVES, ..state }
    } else {
        state
    }
}

impl GhostPlayerCollisionSystem {
    /// One frame of collision detection. After a game over it restarts the
    /// game (three lives, no game over) and reports nothing; without Pac-Man,
    /// or while he is invulnerable, it reports nothing; otherwise it reports,
    /// in entity order, every ghost on Pac-Man's cell and whether it is
    /// frightened.
    pub fn detect(
        state: &mut GameStateResource,
        player: Option<PlayerState>,
        ghosts: &Vec<GhostSnapshot>,
    ) -> (events: Vec<PlayerGhostCollisionEvent>)
        ensures
            events@ == collision_events_spec(*old(state), player, ghosts@),
            *final(state) == state_after_detect(*old(state)),
    {
        if state.game_over {
            state.game_over = false;
            state.lives = 3;
            return Vec::new();
        }
        let mut events: Vec<PlayerGhostCollisionEvent> = Vec::new();
        let player = match player {
            Some(p) => p,
            None => {
                return events;
            },
        };
        if player.invulnerability_timer > 0 {
            return events;
        }
        let mut i: usize = 0;
        while i < ghosts.len()
            invariant
                i <= ghosts@.len(),
                events@ == collisions_upto(ghosts@, player.current_cell, i as int),
            decreases ghosts@.len() - i,
        {
            let g = ghosts[i];
            match g.agent {
                Some(a) => {
                    if a.current_cell == player.current_cell {
                        let is_frightened = match g.mode {
                            GhostMode::Frightened => true,
                            _ => false,
                        };
                        events.push(PlayerGhostCollisionEvent { ghost_id: g.entity_id, is_frightened });
                    }
                },
                None => {},
            }
            i += 1;
        }
        events
    }
}

/// Every ghost with a navigation agent on Pac-Man's cell is reported, with
/// whether it is frightened.
pub proof fn lemma_collisions_complete(ghosts: Seq<GhostSnapshot>, cell: GridCell, n: int)
    requires
        0 <= n <= ghosts.len(),
    ensures
        forall|i: int|
            0 <= i < n && ghost_on(#[trigger] ghosts[i], cell) ==> exists|k: int|
                0 <= k < collisions_upto(ghosts, cell, n).len() && collisions_upto(ghosts, cell, n)[k]
                    == (PlayerGhostCollisionEvent {
                    ghost_id: ghosts[i].entity_id,
                    is_frightened: ghosts[i].mode == GhostMode::Frightened,
                }),
    decreases n,
{
    if n > 0 {
        lemma_collisions_complete(ghosts, cell, n - 1);
        let prev = collisions_upto(ghosts, cell, n - 1);
        let cur = collisions_upto(ghosts, cell, n);
        assert forall|i: int| 0 <= i < n && ghost_on(#[trigger] ghosts[i], cell) implies exists|k: int|
            0 <= k < cur.len() && cur[k] == (PlayerGhostCollisionEvent {
                ghost_id: ghosts[i].entity_id,
                is_frightened: ghosts[i].mode == GhostMode::Frightened,
            }) by {
            if i < n - 1 {
                let k = choose|k: int|
                    0 <= k < prev.len() && prev[k] == (PlayerGhostCollisionEvent {
                        ghost_id: ghosts[i].entity_id,
                        is_frightened: ghosts[i].mode == GhostMode::Frightened,
                    });
                assert(cur[k] == prev[k]);
            } else {
                assert(cur[cur.len() - 1] == (PlayerGhostCollisionEvent {
                    ghost_id: ghosts[i].entity_id,
                    is_frightened: ghosts[i].mode == GhostMode::Frightened,
                }));
            }
        }
    }
}

/// The event of a ghost.
pub open spec fn event_of(g: GhostSnapshot) -> PlayerGhostCollisionEvent {
    PlayerGhostCollisionEvent { ghost_id: g.entity_id, is_frightened: g.mode == GhostMode::Frightened }
}

/// The ghost that event `k` reports.
proof fn collision_source(ghosts: Seq<GhostSnapshot>, cell: GridCell, n: int, k: int) -> (i: int)
    requires
        0 <= n <= ghosts.len(),
        0 <= k < collisions_upto(ghosts, cell, n).len(),
    ensures
        0 <= i < n,
        ghost_on(ghosts[i], cell),
        collisions_upto(ghosts, cell, n)[k] == event_of(ghosts[i]),
    decreases n,
{
    let prev = collisions_upto(ghosts, cell, n - 1);
    if k < prev.len() {
        collision_source(ghosts, cell, n - 1, k)
    } else {
        n - 1
    }
}

/// `e` is the event of some ghost among the first `n` with an agent on
/// `cell`.
pub open spec fn reports_ghost_on(ghosts: Seq<GhostSnapshot>, cell: GridCell, n: int, e: PlayerGhostCollisionEvent) -> bool {
    exists|i: int| 0 <= i < n && ghost_on(ghosts[i], cell) && e == #[trigger] event_of(ghosts[i])
}

/// Only ghosts on Pac-Man's cell are reported: each event names a ghost
/// with a navigation agent on that cell, with whether it is frightened.
pub proof fn lemma_collisions_sound(ghosts: Seq<GhostSnapshot>, cell: GridCell, n: int)
    requires
        0 <= n <= ghosts.len(),
    ensures
        forall|k: int|
            0 <= k < collisions_upto(ghosts, cell, n).len() ==> reports_ghost_on(
                ghosts,
                cell,
                n,
                #[trigger] collisions_upto(ghosts, cell, n)[k],
            ),
{
    assert forall|k: int| 0 <= k < collisions_upto(ghosts, cell, n).len() implies reports_ghost_on(
        ghosts,
        cell,
        n,
        #[trigger] collisions_upto(ghosts, cell, n)[k],
    ) by {
        let i = collision_source(ghosts, cell, n, k);
        assert(event_of(ghosts[i]) == collisions_upto(ghosts, cell, n)[k]);
    }
}

/// The respawn invulnerability window: right after a respawn no collision is
/// reported, and once at least its length has passed, collisions count
/// again.
pub proof fn lemma_respawn_window(
    state: GameStateResource,
    before: PlayerState,
    after: PlayerState,
    ghosts: Seq<GhostSnapshot>,
    elapsed: u64,
)
    requires
        after == respawn_spec(before),
        elapsed >= config::INVULNERABILITY_AFTER_RESPAWN_MS,
        config::INVULNERABILITY_AFTER_RESPAWN_MS - elapsed >= i64::MIN,
    ensures
        collision_events_spec(state, Some(after), ghosts).len() == 0,
        tick_spec(after, elapsed as int).invulnerability_timer <= 0,
        !state.game_over ==> collision_events_spec(state, Some(tick_spec(after, elapsed as int)), ghosts)
            == collisions_upto(ghosts, after.current_cell, ghosts.len() as int),
{
}

/// Collision detection after a game over restarts the game with 3 lives, no
/// game over and the same level, and reports nothing; while Pac-Man is
/// invulnerable nothing is reported; otherwise the game state is left alone.
pub proof fn lemma_detect_rules(state: GameStateResource, player: PlayerState, ghosts: Seq<GhostSnapshot>)
    ensures
        state.game_over ==> state_after_detect(state) == (GameStateResource {
            lives: 3,
            game_over: false,
            level: state.level,
        }) && collision_events_spec(state, Some(player), ghosts).len() == 0,
        !state.game_over ==> state_after_detect(state) == state,
        player.invulnerability_timer > 0 ==> collision_events_spec(state, Some(player), ghosts).len()
            == 0,
        collision_events_spec(state, None, ghosts).len() == 0,
{
}

} // verus!
