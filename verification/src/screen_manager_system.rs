//! The title screen and pausing outside play.
use std::sync::Arc;
use std::sync::atomic::AtomicBool;
use vstd::prelude::*;
use crate::resources::GameScreen;

verus! {

/// An input action of the player.
#[derive(Clone, Copy, PartialEq, Eq, Structural, Debug)]
pub enum InputAction {
    MoveLeft,
    MoveRight,
    MoveUp,
    MoveDown,
    Confirm,
}

/// What the screen manager decided in a frame.
#[derive(Clone, Copy, PartialEq, Eq, Structural, Debug)]
pub struct ScreenDecision {
    /// The world is paused: the game is not being played.
    pub paused: bool,
    /// Leave the title screen and start a game.
    pub start_game: bool,
}

/// The system that starts a game from the title screen and pauses the world
/// when no game is being played. `action_signal` is raised by the start
/// buttons of the user interface.
pub struct ScreenManagerSystem {
    action_signal: Arc<AtomicBool>,
    confirm_pressed: bool,
}

/// On the title screen, a game starts when confirm was pressed or the start
/// signal was raised.
pub open spec fn title_start_spec(confirm_pressed: bool, signal_raised: bool) -> bool {
    confirm_pressed || signal_raised
}

/// Whether the title screen starts a game, given the pending confirm press
/// and whether the start signal was raised.
pub fn title_start_triggered(confirm_pressed: bool, signal_raised: bool) -> (b: bool)
    ensures
        b == title_start_spec(confirm_pressed, signal_raised),
{
    confirm_pressed || signal_raised
}

/// The list of input actions holds a confirm.
pub open spec fn has_confirm(actions: Seq<InputAction>) -> bool {
    exists|i: int| 0 <= i < actions.len() && actions[i] == InputAction::Confirm
}

impl ScreenManagerSystem {
    pub fn new(action_signal: Arc<AtomicBool>) -> (s: ScreenManagerSystem)
        ensures
            !s.confirm_pending(),
            s.signal() == action_signal,
    {
        ScreenManagerSystem { action_signal, confirm_pressed: false }
    }

    /// The start signal shared with the user interface.
    pub closed spec fn signal(&self) -> Arc<AtomicBool> {
        self.action_signal
    }

    /// A confirm press was seen and not yet used.
    pub closed spec fn confirm_pending(&self) -> bool {
        self.confirm_pressed
    }

    /// The screen manager keeps running while the world is paused.
    pub fn is_pausable(&self) -> (b: bool)
        ensures
            !b,
    {
        false
    }

    /// Notes a confirm press among the input actions of a frame.
    pub fn on_input_actions(&mut self, actions: &Vec<InputAction>)
        ensures
            final(self).confirm_pending() == (old(self).confirm_pending() || has_confirm(actions@)),
            final(self).signal() == old(self).signal(),
    {
        let mut i: usize = 0;
        while i < actions.len()
            invariant
                i <= actions@.len(),
                self.action_signal == old(self).action_signal,
                self.confirm_pressed == (old(self).confirm_pressed || exists|j: int|
                    0 <= j < i && actions@[j] == InputAction::Confirm),
            decreases actions@.len() - i,
        {
            if actions[i] == InputAction::Confirm {
                self.confirm_pressed = true;
            }
            i += 1;
        }
    }

    /// One frame on screen `screen`: the world is paused unless a game is
    /// being played. On the title screen a pending confirm press, or else a
    /// raised start signal (which is lowered), starts a game. A pending
    /// confirm press is used up in any case.
    pub fn update(&mut self, screen: Option<GameScreen>) -> (d: ScreenDecision)
        ensures
            d.paused == (screen != Some(GameScreen::Playing)),
            screen != Some(GameScreen::Title) ==> !d.start_game,
            screen == Some(GameScreen::Title) && old(self).confirm_pending() ==> d.start_game,
            !final(self).confirm_pending(),
            final(self).signal() == old(self).signal(),
    {
        let paused = match screen {
            Some(GameScreen::Playing) => false,
            _ => true,
        };
        let on_title = match screen {
            Some(GameScreen::Title) => true,
            _ => false,
        };
        if !on_title {
            self.confirm_pressed = false;
            return ScreenDecision { paused, start_game: false };
        }
        let triggered = if self.confirm_pressed {
            true
        } else {
            let raised = self.action_signal.swap(false, std::sync::atomic::Ordering::Relaxed);
            title_start_triggered(false, raised)
        };
        self.confirm_pressed = false;
        ScreenDecision { paused, start_game: triggered }
    }
}

} // verus!
