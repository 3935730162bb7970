//! The end of a level: all pellets eaten, or the game is over.
use vstd::prelude::*;
use crate::events::LevelCompleteEvent;

verus! {

/// The system that notices the end of a level.
pub struct LevelCompleteSystem;

impl LevelCompleteSystem {
    /// After a game over the level ends as a game over; otherwise it ends,
    /// cleared, when no pellet is left.
    pub fn check(game_over: bool, remaining_pellets: usize) -> (e: Option<LevelCompleteEvent>)
        ensures
            game_over ==> e == Some(LevelCompleteEvent { is_game_over: true }),
            !game_over && remaining_pellets == 0 ==> e == Some(
                LevelCompleteEvent { is_game_over: false },
            ),
            !game_over && remaining_pellets > 0 ==> e is None,
    {
        if game_over {
            return Some(LevelCompleteEvent { is_game_over: true });
        }
        if remaining_pellets == 0 {
            Some(LevelCompleteEvent { is_game_over: false })
        } else {
            None
        }
    }
}

} // verus!
