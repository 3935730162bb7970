//! Points for pellets, power pellets and eaten ghosts.
use vstd::prelude::*;
use crate::config;
use crate::resources::ScoreResource;

verus! {

/// The system that keeps the score.
pub struct ScoringSystem;

/// Points for a ghost eaten with `combo` ghosts already eaten in the streak:
/// 200, 400, 800, then 1600 for every further ghost.
pub open spec fn ghost_points(combo: int) -> int {
    config::ghost_combo_spec(if combo < 3 { combo } else { 3 })
}

/// Points and final combo after the first `n` collisions of `flags`, starting
/// with combo `combo`: each collision with a frightened ghost scores and
/// extends the streak; the others change nothing.
pub open spec fn ghost_streak(flags: Seq<bool>, combo: int, n: int) -> (int, int)
    decreases n,
{
    if n <= 0 {
        (0, combo)
    } else {
        let (p, c) = ghost_streak(flags, combo, n - 1);
        if flags[n - 1] {
            (p + ghost_points(c), c + 1)
        } else {
            (p, c)
        }
    }
}

/// The combo that the ghost streak starts from: a power pellet resets it.
pub open spec fn streak_start(s: ScoreResource, power_pellet_count: int) -> int {
    if power_pellet_count > 0 {
        0
    } else {
        s.ghost_combo as int
    }
}

/// The score after one frame's events.
pub open spec fn scored(
    s: ScoreResource,
    pellet_count: int,
    power_pellet_count: int,
    flags: Seq<bool>,
) -> int {
    s.score + pellet_count * config::PELLET + power_pellet_count * config::POWER_PELLET
        + ghost_streak(flags, streak_start(s, power_pellet_count), flags.len() as int).0
}

/// The streak never loses points, and extends by one for every frightened
/// ghost eaten.
proof fn lemma_ghost_streak_grows(flags: Seq<bool>, combo: int, n: int)
    requires
        0 <= n <= flags.len(),
        combo >= 0,
    ensures
        ghost_streak(flags, combo, n).0 >= 0,
        ghost_streak(flags, combo, n).1 >= combo,
        ghost_streak(flags, combo, n).1 <= combo + n,
        ghost_streak(flags, combo, n).0 <= 1600 * n,
    decreases n,
{
    if n > 0 {
        lemma_ghost_streak_grows(flags, combo, n - 1);
    }
}

impl ScoringSystem {
    /// Whether one frame's points and combo fit in `u32`, which
    /// `apply_events` needs.
    pub fn fits(
        score: &ScoreResource,
        pellet_count: usize,
        power_pellet_count: usize,
        ghost_collisions: &Vec<bool>,
    ) -> (b: bool)
        ensures
            b == (scored(*score, pellet_count as int, power_pellet_count as int, ghost_collisions@)
                <= u32::MAX && ghost_streak(
                ghost_collisions@,
                streak_start(*score, power_pellet_count as int),
                ghost_collisions@.len() as int,
            ).1 <= u32::MAX),
    {
        let ghost c0 = streak_start(*score, power_pellet_count as int);
        let base: u128 = score.score as u128 + (pellet_count as u128) * 10 + (power_pellet_count
            as u128) * 50;
        let mut total: u128 = base;
        let mut combo: u128 = if power_pellet_count > 0 {
            0
        } else {
            score.ghost_combo as u128
        };
        let mut i: usize = 0;
        while i < ghost_collisions.len()
            invariant
                i <= ghost_collisions@.len(),
                c0 >= 0,
                c0 <= u32::MAX,
                base <= u32::MAX + 60 * usize::MAX,
                total == base + ghost_streak(ghost_collisions@, c0, i as int).0,
                combo == ghost_streak(ghost_collisions@, c0, i as int).1,
            decreases ghost_collisions@.len() - i,
        {
            proof {
                lemma_ghost_streak_grows(ghost_collisions@, c0, i + 1);
            }
            if ghost_collisions[i] {
                let idx: usize = if combo < 3 {
                    combo as usize
                } else {
                    3
                };
                total = total + config::ghost_combo(idx) as u128;
                combo = combo + 1;
            }
            i += 1;
        }
        total <= u32::MAX as u128 && combo <= u32::MAX as u128
    }

    /// Adds one frame's points: 10 per pellet, 50 per power pellet (which also
    /// resets the ghost combo), then for each collision with a frightened
    /// ghost the combo's points (200, 400, 800, 1600, 1600, ...), extending
    /// the combo. Collisions with ghosts that are not frightened score nothing.
    pub fn apply_events(
        score: &mut ScoreResource,
        pellet_count: usize,
        power_pellet_count: usize,
        ghost_collisions: &Vec<bool>,
    )
        requires
            scored(*old(score), pellet_count as int, power_pellet_count as int, ghost_collisions@)
                <= u32::MAX,
            ghost_streak(
                ghost_collisions@,
                streak_start(*old(score), power_pellet_count as int),
                ghost_collisions@.len() as int,
            ).1 <= u32::MAX,
        ensures
            final(score).score == scored(
                *old(score),
                pellet_count as int,
                power_pellet_count as int,
                ghost_collisions@,
            ),
            final(score).ghost_combo == ghost_streak(
                ghost_collisions@,
                streak_start(*old(score), power_pellet_count as int),
                ghost_collisions@.len() as int,
            ).1,
            final(score).score >= old(score).score,
    {
        let ghost c0 = streak_start(*score, power_pellet_count as int);
        proof {
            lemma_ghost_streak_grows(ghost_collisions@, c0, ghost_collisions@.len() as int);
        }
        if pellet_count > 0 {
            let pellet_points = (pellet_count as u32) * config::PELLET;
            score.score = score.score + pellet_points;
        }
        if power_pellet_count > 0 {
            let power_points = (power_pellet_count as u32) * config::POWER_PELLET;
            score.score = score.score + power_points;
            score.ghost_combo = 0;
        }
        let ghost base = score.score as int;
        let mut i: usize = 0;
        while i < ghost_collisions.len()
            invariant
                i <= ghost_collisions@.len(),
                c0 >= 0,
                base + ghost_streak(ghost_collisions@, c0, ghost_collisions@.len() as int).0 <= u32::MAX,
                ghost_streak(ghost_collisions@, c0, ghost_collisions@.len() as int).1 <= u32::MAX,
                score.score == base + ghost_streak(ghost_collisions@, c0, i as int).0,
                score.ghost_combo == ghost_streak(ghost_collisions@, c0, i as int).1,
            decreases ghost_collisions@.len() - i,
        {
            proof {
                lemma_ghost_streak_grows(ghost_collisions@, c0, i + 1);
                lemma_ghost_streak_prefix(ghost_collisions@, c0, i + 1, ghost_collisions@.len() as int);
            }
            if ghost_collisions[i] {
                let idx: usize = if score.ghost_combo < 3 {
                    score.ghost_combo as usize
                } else {
                    3
                };
                let points = config::ghost_combo(idx);
                score.score = score.score + points;
                score.ghost_combo = score.ghost_combo + 1;
            }
            i += 1;
        }
    }
}

/// The points and combo of a prefix of the streak are no more than those of
/// a longer prefix.
proof fn lemma_ghost_streak_prefix(flags: Seq<bool>, combo: int, m: int, n: int)
    requires
        0 <= m <= n <= flags.len(),
        combo >= 0,
    ensures
        ghost_streak(flags, combo, m).0 <= ghost_streak(flags, combo, n).0,
        ghost_streak(flags, combo, m).1 <= ghost_streak(flags, combo, n).1,
    decreases n - m,
{
    if m < n {
        lemma_ghost_streak_prefix(flags, combo, m, n - 1);
        lemma_ghost_streak_grows(flags, combo, n - 1);
    }
}

/// After a power pellet, a streak of frightened ghosts eaten in one frame
/// scores 200, 400, 800, 1600 and then 1600 for each further ghost.
pub proof fn lemma_power_pellet_restarts_combo(flags: Seq<bool>, k: int)
    requires
        0 <= k < flags.len(),
        forall|i: int| 0 <= i < flags.len() ==> flags[i],
    ensures
        ghost_streak(flags, 0, k + 1).0 - ghost_streak(flags, 0, k).0 == (if k == 0 {
            200int
        } else if k == 1 {
            400int
        } else if k == 2 {
            800int
        } else {
            1600int
        }),
        ghost_streak(flags, 0, k + 1).1 == k + 1,
    decreases k,
{
    if k > 0 {
        lemma_power_pellet_restarts_combo(flags, k - 1);
    } else {
        assert(ghost_streak(flags, 0, 0) == (0int, 0int));
    }
}

/// Collisions with ghosts that are not frightened score nothing and leave
/// the combo alone.
proof fn lemma_harmless_streak(flags: Seq<bool>, combo: int, n: int)
    requires
        0 <= n <= flags.len(),
        forall|i: int| 0 <= i < flags.len() ==> !flags[i],
    ensures
        ghost_streak(flags, combo, n) == (0int, combo),
    decreases n,
{
    if n > 0 {
        lemma_harmless_streak(flags, combo, n - 1);
    }
}

/// The scoring rules: a pellet is worth 10 points and a power pellet 50; a
/// power pellet restarts the ghost combo; the ghosts of a combo are worth
/// 200, 400, 800 and then 1600 each; a collision with a ghost that is not
/// frightened scores nothing and keeps the combo.
pub proof fn lemma_scoring_rules(s: ScoreResource, pellets: int, power_pellets: int, flags: Seq<bool>)
    requires
        pellets >= 0,
        power_pellets >= 0,
    ensures
        scored(s, pellets, power_pellets, flags) == s.score + 10 * pellets + 50 * power_pellets
            + ghost_streak(flags, streak_start(s, power_pellets), flags.len() as int).0,
        power_pellets > 0 ==> streak_start(s, power_pellets) == 0,
        power_pellets == 0 ==> streak_start(s, power_pellets) == s.ghost_combo,
        ghost_points(0) == 200 && ghost_points(1) == 400 && ghost_points(2) == 800,
        forall|c: int| c >= 3 ==> #[trigger] ghost_points(c) == 1600,
        (forall|i: int| 0 <= i < flags.len() ==> !flags[i]) ==> ghost_streak(
            flags,
            streak_start(s, power_pellets),
            flags.len() as int,
        ) == (0int, streak_start(s, power_pellets)),
{
    if forall|i: int| 0 <= i < flags.len() ==> !flags[i] {
        lemma_harmless_streak(flags, streak_start(s, power_pellets), flags.len() as int);
    }
}

} // verus!
