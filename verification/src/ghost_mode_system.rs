//! Ghost mode changes: following the global schedule, running out of fright,
//! and being frightened by a power pellet.
use vstd::prelude::*;
use crate::config;
use crate::ghost::GhostMode;

verus! {

/// The system that keeps every ghost's mode in line with the schedule.
pub struct GhostModeSystem {
    last_printed_mode: GhostMode,
}

/// The colour tint a ghost is drawn with.
#[derive(Clone, Copy, PartialEq, Eq, Structural, Debug)]
pub enum Tint {
    /// No tint.
    Plain,
    /// Red, for chasing.
    Chase,
    /// Blue, for frightened.
    Frightened,
}

/// What happens to a ghost's random wandering.
#[derive(Clone, Copy, PartialEq, Eq, Structural, Debug)]
pub enum Wandering {
    /// Removed.
    Stop,
    /// Added unless present.
    Ensure,
}

/// The changes to a ghost's components when it goes from one mode to another.
#[derive(Clone, Copy, PartialEq, Eq, Structural, Debug)]
pub struct TransitionPlan {
    /// The mode whose marker is removed (`Start` has none).
    pub remove_marker: GhostMode,
    /// The mode whose marker is added (`Start` has none).
    pub add_marker: GhostMode,
    pub tint: Tint,
    pub wandering: Wandering,
    /// The navigation agent drops its target and path and stops.
    pub clear_navigation: bool,
    /// For a frightened ghost, how long it stays so (milliseconds).
    pub frightened_timer: u64,
}

/// The plan for a change from mode `from` to mode `to`.
pub open spec fn transition_spec(from: GhostMode, to: GhostMode) -> TransitionPlan {
    TransitionPlan {
        remove_marker: from,
        add_marker: to,
        tint: match to {
            GhostMode::Chase => Tint::Chase,
            GhostMode::Frightened => Tint::Frightened,
            _ => Tint::Plain,
        },
        wandering: match to {
            GhostMode::Chase => Wandering::Stop,
            GhostMode::Frightened => Wandering::Stop,
            _ => Wandering::Ensure,
        },
        clear_navigation: to == GhostMode::Frightened,
        frightened_timer: if to == GhostMode::Frightened {
            config::FRIGHTENED_DURATION_MS
        } else {
            0
        },
    }
}

/// What one frame does to a ghost.
#[derive(Clone, Copy, PartialEq, Eq, Structural, Debug)]
pub enum GhostFrameAction {
    /// Nothing changes.
    Keep,
    /// The ghost goes from one mode to another.
    Transition { from: GhostMode, to: GhostMode },
    /// A frightened ghost stays frightened for this many milliseconds more.
    SetFrightenedTimer { timer: u64 },
}

/// What a power pellet does to a ghost.
#[derive(Clone, Copy, PartialEq, Eq, Structural, Debug)]
pub enum PowerPelletAction {
    /// An already frightened ghost starts its fright anew and stops.
    RestartFright { timer: u64 },
    /// Any other ghost becomes frightened.
    Frighten { from: GhostMode },
}

/// The mode given by a ghost's markers: chase before scatter before
/// frightened, and `Start` with none.
pub open spec fn detect_mode_spec(has_chase: bool, has_scatter: bool, has_frightened: bool) -> GhostMode {
    if has_chase {
        GhostMode::Chase
    } else if has_scatter {
        GhostMode::Scatter
    } else if has_frightened {
        GhostMode::Frightened
    } else {
        GhostMode::Start
    }
}

/// The mode given by a ghost's markers.
pub fn detect_mode(has_chase: bool, has_scatter: bool, has_frightened: bool) -> (m: GhostMode)
    ensures
        m == detect_mode_spec(has_chase, has_scatter, has_frightened),
{
    if has_chase {
        GhostMode::Chase
    } else if has_scatter {
        GhostMode::Scatter
    } else if has_frightened {
        GhostMode::Frightened
    } else {
        GhostMode::Start
    }
}

/// The mode markers a ghost entity carries; the fright marker holds its
/// remaining milliseconds.
#[derive(Clone, Copy, PartialEq, Eq, Structural, Debug)]
pub struct GhostMarkers {
    pub chase: bool,
    pub scatter: bool,
    pub frightened: Option<u64>,
}

/// The markers after a transition plan: the old marker is removed, then the
/// new one added.
pub open spec fn apply_plan_spec(m: GhostMarkers, plan: TransitionPlan) -> GhostMarkers {
    let removed = match plan.remove_marker {
        GhostMode::Chase => GhostMarkers { chase: false, ..m },
        GhostMode::Scatter => GhostMarkers { scatter: false, ..m },
        GhostMode::Frightened => GhostMarkers { frightened: None, ..m },
        GhostMode::Start => m,
    };
    match plan.add_marker {
        GhostMode::Chase => GhostMarkers { chase: true, ..removed },
        GhostMode::Scatter => GhostMarkers { scatter: true, ..removed },
        GhostMode::Frightened => GhostMarkers { frightened: Some(plan.frightened_timer), ..removed },
        GhostMode::Start => removed,
    }
}

impl GhostMarkers {
    /// The ghost carries at most one mode marker.
    pub open spec fn at_most_one(&self) -> bool {
        &&& !(self.chase && self.scatter)
        &&& !(self.chase && self.frightened is Some)
        &&& !(self.scatter && self.frightened is Some)
    }

    /// The ghost carries no mode marker.
    pub open spec fn none(&self) -> bool {
        !self.chase && !self.scatter && self.frightened is None
    }

    pub open spec fn mode_spec(&self) -> GhostMode {
        detect_mode_spec(self.chase, self.scatter, self.frightened is Some)
    }

    /// The mode the markers give.
    pub fn mode(&self) -> (m: GhostMode)
        ensures
            m == self.mode_spec(),
    {
        detect_mode(self.chase, self.scatter, self.frightened.is_some())
    }

    /// Carries out the marker part of a transition plan.
    pub fn apply_plan(&mut self, plan: &TransitionPlan)
        ensures
            *final(self) == apply_plan_spec(*old(self), *plan),
    {
        match plan.remove_marker {
            GhostMode::Chase => {
                self.chase = false;
            },
            GhostMode::Scatter => {
                self.scatter = false;
            },
            GhostMode::Frightened => {
                self.frightened = None;
            },
            GhostMode::Start => {},
        }
        match plan.add_marker {
            GhostMode::Chase => {
                self.chase = true;
            },
            GhostMode::Scatter => {
                self.scatter = true;
            },
            GhostMode::Frightened => {
                self.frightened = Some(plan.frightened_timer);
            },
            GhostMode::Start => {},
        }
    }
}

/// A ghost keeps at most one mode marker: going from its detected mode to
/// another leaves it with exactly the marker of the new mode (none for
/// `Start`), so its detected mode is the new one.
pub proof fn lemma_transition_sets_mode(m: GhostMarkers, to: GhostMode)
    requires
        m.at_most_one(),
    ensures
        ({
            let m2 = apply_plan_spec(m, transition_spec(m.mode_spec(), to));
            &&& m2.at_most_one()
            &&& m2.mode_spec() == to
            &&& to == GhostMode::Start <==> m2.none()
        }),
{
}

/// The component changes for a ghost going from mode `from` to mode `to`:
/// chasing ghosts are tinted red and stop wandering; scattering ghosts
/// wander; frightened ghosts are tinted blue, stop wandering and stop where
/// they are, frightened for the full duration; ghosts in their start mode
/// wander.
pub fn transition(from: GhostMode, to: GhostMode) -> (p: TransitionPlan)
    ensures
        p == transition_spec(from, to),
{
    let tint = match to {
        GhostMode::Chase => Tint::Chase,
        GhostMode::Frightened => Tint::Frightened,
        _ => Tint::Plain,
    };
    let wandering = match to {
        GhostMode::Chase => Wandering::Stop,
        GhostMode::Frightened => Wandering::Stop,
        _ => Wandering::Ensure,
    };
    let frightened = match to {
        GhostMode::Frightened => true,
        _ => false,
    };
    TransitionPlan {
        remove_marker: from,
        add_marker: to,
        tint,
        wandering,
        clear_navigation: frightened,
        frightened_timer: if frightened {
            config::FRIGHTENED_DURATION_MS
        } else {
            0
        },
    }
}

/// What one frame of `delta` milliseconds does to a ghost in mode `current`
/// (with `frightened_timer` when it is frightened) under the global mode.
pub open spec fn frame_action_spec(
    current: GhostMode,
    frightened_timer: Option<u64>,
    delta: u64,
    global: GhostMode,
) -> GhostFrameAction {
    if current == GhostMode::Frightened {
        let t = match frightened_timer {
            Some(t) => t,
            None => 0,
        };
        if t <= delta {
            GhostFrameAction::Transition { from: GhostMode::Frightened, to: global }
        } else {
            GhostFrameAction::SetFrightenedTimer { timer: (t - delta) as u64 }
        }
    } else if current != global {
        GhostFrameAction::Transition { from: current, to: global }
    } else {
        GhostFrameAction::Keep
    }
}

/// A ghost's mode state at the start of a frame.
#[derive(Clone, Copy, PartialEq, Eq, Structural, Debug)]
pub struct GhostFrame {
    pub entity_id: u32,
    pub current_mode: GhostMode,
    /// The remaining fright, when the ghost has a frightened marker.
    pub frightened_timer: Option<u64>,
}

impl GhostModeSystem {
    pub fn new() -> (s: GhostModeSystem)
        ensures
            s.last_printed() == GhostMode::Start,
    {
        GhostModeSystem { last_printed_mode: GhostMode::Start }
    }

    /// The last global mode that was announced.
    pub closed spec fn last_printed(&self) -> GhostMode {
        self.last_printed_mode
    }

    /// Records the global mode of this frame; returns whether it is a change
    /// worth announcing (a new mode other than `Frightened`).
    pub fn note_global_mode(&mut self, global: GhostMode) -> (announce: bool)
        ensures
            announce == (global != old(self).last_printed() && global != GhostMode::Frightened),
            final(self).last_printed() == (if announce {
                global
            } else {
                old(self).last_printed()
            }),
    {
        if global != self.last_printed_mode && global != GhostMode::Frightened {
            self.last_printed_mode = global;
            true
        } else {
            false
        }
    }

    /// One frame for one ghost: a frightened ghost counts down its fright
    /// and, when it runs out, takes the global mode; any other ghost takes
    /// the global mode when it differs.
    pub fn frame_action(
        current: GhostMode,
        frightened_timer: Option<u64>,
        delta: u64,
        global: GhostMode,
    ) -> (a: GhostFrameAction)
        ensures
            a == frame_action_spec(current, frightened_timer, delta, global),
            current == GhostMode::Frightened && frightened_timer is Some && frightened_timer->0
                > delta ==> a == (GhostFrameAction::SetFrightenedTimer {
                timer: (frightened_timer->0 - delta) as u64,
            }),
            current == GhostMode::Frightened && (frightened_timer is None || frightened_timer->0
                <= delta) ==> a == (GhostFrameAction::Transition {
                from: GhostMode::Frightened,
                to: global,
            }),
            current != GhostMode::Frightened && current != global ==> a == (
            GhostFrameAction::Transition { from: current, to: global }),
            current != GhostMode::Frightened && current == global ==> a == GhostFrameAction::Keep,
    {
        match current {
            GhostMode::Frightened => {
                let t = match frightened_timer {
                    Some(t) => t,
                    None => 0,
                };
                if t <= delta {
                    GhostFrameAction::Transition { from: GhostMode::Frightened, to: global }
                } else {
                    GhostFrameAction::SetFrightenedTimer { timer: t - delta }
                }
            },
            _ => {
                if current != global {
                    GhostFrameAction::Transition { from: current, to: global }
                } else {
                    GhostFrameAction::Keep
                }
            },
        }
    }

    /// What a power pellet does to a ghost in mode `current`: a frightened
    /// ghost is frightened anew for the full duration; any other becomes
    /// frightened.
    pub fn power_pellet_action(current: GhostMode) -> (a: PowerPelletAction)
        ensures
            current == GhostMode::Frightened ==> a == (PowerPelletAction::RestartFright {
                timer: config::FRIGHTENED_DURATION_MS,
            }),
            current != GhostMode::Frightened ==> a == (PowerPelletAction::Frighten { from: current }),
    {
        match current {
            GhostMode::Frightened => PowerPelletAction::RestartFright {
                timer: config::FRIGHTENED_DURATION_MS,
            },
            _ => PowerPelletAction::Frighten { from: current },
        }
    }
}

impl GhostModeSystem {
    /// One frame for every ghost, in order.
    pub fn frame_actions(frames: &Vec<GhostFrame>, delta: u64, global: GhostMode) -> (r: Vec<
        (u32, GhostFrameAction),
    >)
        ensures
            r@.len() == frames@.len(),
            forall|i: int|
                0 <= i < frames@.len() ==> #[trigger] r@[i] == (
                    frames@[i].entity_id,
                    frame_action_spec(
                        frames@[i].current_mode,
                        frames@[i].frightened_timer,
                        delta,
                        global,
                    ),
                ),
    {
        let mut out: Vec<(u32, GhostFrameAction)> = Vec::new();
        let mut i: usize = 0;
        while i < frames.len()
            invariant
                i <= frames@.len(),
                out@.len() == i,
                forall|j: int|
                    0 <= j < i ==> #[trigger] out@[j] == (
                        frames@[j].entity_id,
                        frame_action_spec(
                            frames@[j].current_mode,
                            frames@[j].frightened_timer,
                            delta,
                            global,
                        ),
                    ),
            decreases frames@.len() - i,
        {
            let f = frames[i];
            let a = Self::frame_action(f.current_mode, f.frightened_timer, delta, global);
            out.push((f.entity_id, a));
            i += 1;
        }
        out
    }

    /// What a power pellet does to every ghost, in order; `ghosts` holds each
    /// ghost's entity id and mode.
    pub fn power_pellet_actions(ghosts: &Vec<(u32, GhostMode)>) -> (r: Vec<(u32, PowerPelletAction)>)
        ensures
            r@.len() == ghosts@.len(),
            forall|i: int|
                0 <= i < ghosts@.len() ==> (#[trigger] r@[i]).0 == ghosts@[i].0 && (if ghosts@[i].1
                    == GhostMode::Frightened {
                    r@[i].1 == (PowerPelletAction::RestartFright {
                        timer: config::FRIGHTENED_DURATION_MS,
                    })
                } else {
                    r@[i].1 == (PowerPelletAction::Frighten { from: ghosts@[i].1 })
                }),
    {
        let mut out: Vec<(u32, PowerPelletAction)> = Vec::new();
        let mut i: usize = 0;
        while i < ghosts.len()
            invariant
                i <= ghosts@.len(),
                out@.len() == i,
                forall|j: int|
                    0 <= j < i ==> (#[trigger] out@[j]).0 == ghosts@[j].0 && (if ghosts@[j].1
                        == GhostMode::Frightened {
                        out@[j].1 == (PowerPelletAction::RestartFright {
                            timer: config::FRIGHTENED_DURATION_MS,
                        })
                    } else {
                        out@[j].1 == (PowerPelletAction::Frighten { from: ghosts@[j].1 })
                    }),
            decreases ghosts@.len() - i,
        {
            let (id, mode) = ghosts[i];
            let a = Self::power_pellet_action(mode);
            out.push((id, a));
            i += 1;
        }
        out
    }
}

/// After a power pellet every ghost is frightened, for the full duration.
pub proof fn lemma_power_pellet_frightens_all(current: GhostMode)
    ensures
        ({
            let plan = transition_spec(current, GhostMode::Frightened);
            &&& plan.add_marker == GhostMode::Frightened
            &&& plan.frightened_timer == config::FRIGHTENED_DURATION_MS
            &&& plan.frightened_timer == 6000
            &&& plan.wandering == Wandering::Stop
            &&& plan.clear_navigation
            &&& plan.tint == Tint::Frightened
        }),
{
}

/// A ghost that follows the schedule ends every frame in the global mode,
/// unless it is still frightened; and fright never outlasts its timer.
pub proof fn lemma_frame_follows_schedule(
    current: GhostMode,
    frightened_timer: Option<u64>,
    delta: u64,
    global: GhostMode,
)
    ensures
        ({
            let a = frame_action_spec(current, frightened_timer, delta, global);
            &&& a matches GhostFrameAction::Transition { from, to } ==> from == current && to
                == global
            &&& a matches GhostFrameAction::SetFrightenedTimer { timer } ==> current
                == GhostMode::Frightened && 0 < timer && frightened_timer is Some && timer
                == frightened_timer->0 - delta
            &&& a is Keep ==> current == global
        }),
{
}

/// A frightened ghost stays frightened, whatever the global mode, while its
/// timer exceeds the frame's time, which is taken off the timer; once the
/// timer is used up (or missing) it takes the global mode. A ghost that is not
/// frightened takes the global mode when it differs, and else is left alone.
pub proof fn lemma_fright_outlasts_global_mode(
    current: GhostMode,
    frightened_timer: Option<u64>,
    delta: u64,
    global: GhostMode,
)
    ensures
        ({
            let a = frame_action_spec(current, frightened_timer, delta, global);
            &&& current == GhostMode::Frightened && frightened_timer is Some && frightened_timer->0
                > delta ==> a == (GhostFrameAction::SetFrightenedTimer {
                timer: (frightened_timer->0 - delta) as u64,
            })
            &&& current == GhostMode::Frightened && (frightened_timer is None || frightened_timer->0
                <= delta) ==> a == (GhostFrameAction::Transition {
                from: GhostMode::Frightened,
                to: global,
            })
            &&& current != GhostMode::Frightened && current != global ==> a == (
            GhostFrameAction::Transition { from: current, to: global })
            &&& current != GhostMode::Frightened && current == global ==> a == GhostFrameAction::Keep
        }),
{
}

/// How a mode change looks: chasing ghosts are tinted red and stop
/// wandering; scattering ghosts and ghosts in their start mode wander
/// untinted; frightened ghosts are tinted blue, stop wandering and stand
/// still, frightened for 6 seconds; the old marker goes and the new one comes.
pub proof fn lemma_transition_effects(from: GhostMode, to: GhostMode)
    ensures
        ({
            let p = transition_spec(from, to);
            &&& p.remove_marker == from && p.add_marker == to
            &&& to == GhostMode::Chase ==> p.tint == Tint::Chase && p.wandering == Wandering::Stop
                && !p.clear_navigation
            &&& to == GhostMode::Scatter ==> p.tint == Tint::Plain && p.wandering == Wandering::Ensure
                && !p.clear_navigation
            &&& to == GhostMode::Start ==> p.tint == Tint::Plain && p.wandering == Wandering::Ensure
                && !p.clear_navigation
            &&& to == GhostMode::Frightened ==> p.tint == Tint::Frightened && p.wandering
                == Wandering::Stop && p.clear_navigation && p.frightened_timer == 6000
        }),
{
}

} // verus!
