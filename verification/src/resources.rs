//! Shared game state: the ghost mode schedule, lives and level, and score.
use vstd::prelude::*;
use crate::config;
use crate::ghost::GhostMode;

verus! {

/// Number of phases in the scatter/chase schedule.
pub const SCHEDULE_LEN: usize = 8;

/// Length in milliseconds of phase `i` of the schedule; the last phase never
/// ends.
pub open spec fn phase_duration(i: int) -> int {
    if i == 0 {
        7000
    } else if i == 1 {
        20000
    } else if i == 2 {
        7000
    } else if i == 3 {
        20000
    } else if i == 4 {
        5000
    } else if i == 5 {
        20000
    } else {
        5000
    }
}

/// Time in milliseconds from the end of the start delay to the beginning of
/// phase `i`.
pub open spec fn phase_start(i: int) -> int {
    if i <= 0 {
        0
    } else if i == 1 {
        7000
    } else if i == 2 {
        27000
    } else if i == 3 {
        34000
    } else if i == 4 {
        54000
    } else if i == 5 {
        59000
    } else if i == 6 {
        79000
    } else {
        84000
    }
}

/// The mode of phase `i`: scatter and chase alternate, starting with scatter.
pub open spec fn phase_mode(i: int) -> GhostMode {
    if i % 2 == 0 {
        GhostMode::Scatter
    } else {
        GhostMode::Chase
    }
}

/// Moves through the phases that `elapsed` milliseconds complete, starting at
/// phase `idx`; the last phase is never left.
pub open spec fn settle(idx: int, elapsed: int) -> (int, int)
    decreases SCHEDULE_LEN - idx,
{
    if 0 <= idx && idx + 1 < SCHEDULE_LEN && elapsed >= phase_duration(idx) {
        settle(idx + 1, elapsed - phase_duration(idx))
    } else {
        (idx, elapsed)
    }
}

/// `a + b`, capped at the largest `u64`.
pub open spec fn sat_add(a: int, b: int) -> int {
    if a + b > u64::MAX {
        u64::MAX as int
    } else {
        a + b
    }
}

/// Global scatter/chase schedule of the ghosts, after a start delay.
/// Times are milliseconds.
#[derive(Clone, Copy, PartialEq, Eq, Structural, Debug)]
pub struct GhostModeResource {
    pub start_elapsed: u64,
    pub phase_elapsed: u64,
    pub phase_index: usize,
    pub in_start: bool,
}

/// The schedule state after `delta` milliseconds more.
pub open spec fn advance_spec(s: GhostModeResource, delta: int) -> GhostModeResource {
    if s.in_start {
        let se = sat_add(s.start_elapsed as int, delta);
        if se >= config::GHOST_START_DELAY_MS {
            GhostModeResource { start_elapsed: se as u64, phase_elapsed: 0, in_start: false, ..s }
        } else {
            GhostModeResource { start_elapsed: se as u64, ..s }
        }
    } else {
        let (i, e) = settle(s.phase_index as int, sat_add(s.phase_elapsed as int, delta));
        GhostModeResource { phase_index: i as usize, phase_elapsed: e as u64, ..s }
    }
}

/// The mode that the schedule prescribes.
pub open spec fn mode_spec(s: GhostModeResource) -> GhostMode {
    if s.in_start {
        GhostMode::Start
    } else {
        phase_mode(s.phase_index as int)
    }
}

/// Milliseconds of the schedule played since the start delay ended.
pub open spec fn played(s: GhostModeResource) -> int {
    phase_start(s.phase_index as int) + s.phase_elapsed
}

/// The current phase has not run out yet (or is the last one).
pub open spec fn settled(s: GhostModeResource) -> bool {
    s.phase_index + 1 == SCHEDULE_LEN || s.phase_elapsed < phase_duration(s.phase_index as int)
}

/// Length in milliseconds of phase `i`.
fn phase_duration_ms(i: usize) -> (d: u64)
    requires
        i + 1 < SCHEDULE_LEN,
    ensures
        d == phase_duration(i as int),
{
    if i == 0 {
        7000
    } else if i == 1 {
        20000
    } else if i == 2 {
        7000
    } else if i == 3 {
        20000
    } else if i == 4 {
        5000
    } else if i == 5 {
        20000
    } else {
        5000
    }
}

impl GhostModeResource {
    /// The schedule's phase index lies within the schedule.
    pub open spec fn wf(&self) -> bool {
        self.phase_index < SCHEDULE_LEN
    }

    /// The schedule at the beginning of a level: in the start delay.
    pub open spec fn new_spec() -> GhostModeResource {
        GhostModeResource { start_elapsed: 0, phase_elapsed: 0, phase_index: 0, in_start: true }
    }

    pub fn new() -> (s: GhostModeResource)
        ensures
            s == Self::new_spec(),
            s.wf(),
    {
        GhostModeResource { start_elapsed: 0, phase_elapsed: 0, phase_index: 0, in_start: true }
    }

    /// Lets `delta` milliseconds pass: first the start delay, then the
    /// phases of the schedule. Elapsed times saturate at the largest `u64`.
    pub fn advance(&mut self, delta: u64)
        requires
            old(self).in_start || old(self).phase_index < usize::MAX,
        ensures
            *final(self) == advance_spec(*old(self), delta as int),
            old(self).wf() ==> final(self).wf(),
            old(self).in_start ==> (final(self).in_start <==> old(self).start_elapsed + delta
                < 3000),
            old(self).in_start && !final(self).in_start ==> final(self).phase_elapsed == 0
                && final(self).phase_index == old(self).phase_index,
    {
        if self.in_start {
            self.start_elapsed = self.start_elapsed.saturating_add(delta);
            if self.start_elapsed >= config::GHOST_START_DELAY_MS {
                self.in_start = false;
                self.phase_elapsed = 0;
            }
            return;
        }
        self.phase_elapsed = self.phase_elapsed.saturating_add(delta);
        let ghost e0 = self.phase_elapsed as int;
        let ghost i0 = self.phase_index as int;
        while self.phase_index + 1 < SCHEDULE_LEN && self.phase_elapsed >= phase_duration_ms(
            self.phase_index,
        )
            invariant
                self.phase_index < usize::MAX,
                old(self).wf() ==> self.phase_index < SCHEDULE_LEN,
                self.phase_index >= old(self).phase_index,
                !self.in_start,
                settle(i0, e0) == settle(self.phase_index as int, self.phase_elapsed as int),
                self.start_elapsed == old(self).start_elapsed,
            decreases SCHEDULE_LEN - self.phase_index,
        {
            let d = phase_duration_ms(self.phase_index);
            self.phase_elapsed = self.phase_elapsed - d;
            self.phase_index = self.phase_index + 1;
        }
    }

    /// The mode that the schedule prescribes now.
    pub fn current_mode(&self) -> (m: GhostMode)
        requires
            self.in_start || self.wf(),
        ensures
            m == mode_spec(*self),
            self.in_start ==> m == GhostMode::Start,
            !self.in_start && self.phase_index % 2 == 0 ==> m == GhostMode::Scatter,
            !self.in_start && self.phase_index % 2 == 1 ==> m == GhostMode::Chase,
    {
        if self.in_start {
            GhostMode::Start
        } else if self.phase_index % 2 == 0 {
            GhostMode::Scatter
        } else {
            GhostMode::Chase
        }
    }
}

/// Settling the schedule keeps the time played, never goes back a phase,
/// stays within the schedule and ends in a phase that has not run out.
proof fn lemma_settle(idx: int, elapsed: int)
    requires
        0 <= idx < SCHEDULE_LEN,
        elapsed >= 0,
    ensures
        idx <= settle(idx, elapsed).0 < SCHEDULE_LEN,
        settle(idx, elapsed).1 >= 0,
        phase_start(settle(idx, elapsed).0) + settle(idx, elapsed).1 == phase_start(idx) + elapsed,
        settle(idx, elapsed).0 + 1 == SCHEDULE_LEN || settle(idx, elapsed).1 < phase_duration(
            settle(idx, elapsed).0,
        ),
    decreases SCHEDULE_LEN - idx,
{
    if idx + 1 < SCHEDULE_LEN && elapsed >= phase_duration(idx) {
        lemma_settle(idx + 1, elapsed - phase_duration(idx));
    }
}

/// Two settled positions in the schedule that have played the same time are
/// the same position.
proof fn lemma_settled_unique(i: int, e: int, j: int, f: int)
    requires
        0 <= i < SCHEDULE_LEN,
        0 <= j < SCHEDULE_LEN,
        e >= 0,
        f >= 0,
        i + 1 == SCHEDULE_LEN || e < phase_duration(i),
        j + 1 == SCHEDULE_LEN || f < phase_duration(j),
        phase_start(i) + e == phase_start(j) + f,
    ensures
        i == j,
        e == f,
{
}

/// Once the start delay is over, the ghosts never return to their start
/// mode, the schedule never goes back a phase, and the current phase has not
/// run out.
pub proof fn lemma_schedule_moves_forward(s: GhostModeResource, delta: u64)
    requires
        s.wf(),
        !s.in_start,
    ensures
        !advance_spec(s, delta as int).in_start,
        mode_spec(advance_spec(s, delta as int)) != GhostMode::Start,
        advance_spec(s, delta as int).phase_index >= s.phase_index,
        advance_spec(s, delta as int).wf(),
        settled(advance_spec(s, delta as int)),
{
    lemma_settle(s.phase_index as int, sat_add(s.phase_elapsed as int, delta as int));
}

/// Advancing the schedule by `delta` milliseconds adds exactly `delta` to
/// the time played, as long as the elapsed time does not saturate.
pub proof fn lemma_schedule_counts_time(s: GhostModeResource, delta: u64)
    requires
        s.wf(),
        !s.in_start,
        s.phase_elapsed + delta <= u64::MAX,
    ensures
        played(advance_spec(s, delta as int)) == played(s) + delta,
{
    lemma_settle(s.phase_index as int, s.phase_elapsed + delta);
}

/// Once the start delay is over, advancing the schedule by `a` and then by
/// `b` milliseconds gives the same state as advancing it by `a + b` at once.
pub proof fn lemma_schedule_additive(s: GhostModeResource, a: u64, b: u64)
    requires
        s.wf(),
        !s.in_start,
        s.phase_elapsed + a + b <= u64::MAX,
    ensures
        advance_spec(advance_spec(s, a as int), b as int) == advance_spec(s, a + b),
{
    let s1 = advance_spec(s, a as int);
    lemma_settle(s.phase_index as int, s.phase_elapsed + a);
    assert(s1.phase_elapsed + b <= u64::MAX) by {
        assert(phase_start(s1.phase_index as int) >= phase_start(s.phase_index as int));
    }
    let s2 = advance_spec(s1, b as int);
    lemma_settle(s1.phase_index as int, s1.phase_elapsed + b);
    let s3 = advance_spec(s, a + b);
    lemma_settle(s.phase_index as int, s.phase_elapsed + a + b);
    lemma_settled_unique(
        s2.phase_index as int,
        s2.phase_elapsed as int,
        s3.phase_index as int,
        s3.phase_elapsed as int,
    );
}

/// The schedule's modes by time: during the start delay the ghosts are in
/// their start mode; afterwards phases 0, 2, 4 and 6 scatter (for 7, 7, 5
/// and 5 seconds) and phases 1, 3, 5 and 7 chase (for 20, 20, 20 seconds and
/// then for ever). So, once settled, the ghosts scatter exactly during the
/// first 7 s, from 27 s to 34 s, from 54 s to 59 s and from 79 s to 84 s of
/// the schedule.
pub proof fn lemma_schedule_modes(s: GhostModeResource)
    requires
        s.wf(),
    ensures
        s.in_start ==> mode_spec(s) == GhostMode::Start,
        !s.in_start ==> (mode_spec(s) == GhostMode::Scatter <==> s.phase_index % 2 == 0),
        !s.in_start ==> (mode_spec(s) == GhostMode::Chase <==> s.phase_index % 2 == 1),
        !s.in_start && settled(s) ==> (mode_spec(s) == GhostMode::Scatter <==> (played(s) < 7000
            || 27000 <= played(s) < 34000 || 54000 <= played(s) < 59000 || 79000 <= played(s)
            < 84000)),
        phase_duration(0) == 7000 && phase_duration(1) == 20000 && phase_duration(2) == 7000
            && phase_duration(3) == 20000 && phase_duration(4) == 5000 && phase_duration(5)
            == 20000 && phase_duration(6) == 5000,
{
}

/// Lives, game-over flag and level.
#[derive(Clone, Copy, PartialEq, Eq, Structural, Debug)]
pub struct GameStateResource {
    pub lives: u32,
    pub game_over: bool,
    pub level: u32,
}

impl GameStateResource {
    pub fn new() -> (s: GameStateResource)
        ensures
            s.lives == config::INITIAL_LIVES,
            !s.game_over,
            s.level == config::INITIAL_LEVEL,
    {
        GameStateResource {
            lives: config::INITIAL_LIVES,
            game_over: false,
            level: config::INITIAL_LEVEL,
        }
    }
}

/// The score and the number of ghosts eaten since the last power pellet.
#[derive(Clone, Copy, PartialEq, Eq, Structural, Debug)]
pub struct ScoreResource {
    pub score: u32,
    pub ghost_combo: u32,
}

impl ScoreResource {
    pub fn new() -> (s: ScoreResource)
        ensures
            s.score == 0,
            s.ghost_combo == 0,
    {
        ScoreResource { score: 0, ghost_combo: 0 }
    }
}

/// The screen being shown; the timers count milliseconds.
#[derive(Clone, Copy, PartialEq, Eq, Structural, Debug)]
pub enum GameScreen {
    Title,
    Playing,
    LevelComplete { timer: u64 },
    GameOver { timer: u64 },
}

} // verus!
