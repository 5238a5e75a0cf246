//! The aggregate user statistics record and the streak engine: consecutive
//! completion days, the high-water mark, and the gradually decaying streak
//! bonus pool.

use vstd::prelude::*;

verus! {

use crate::task::{valid_time, TIME_MAX};

/// One whole in fixed-point arithmetic: values scaled by `SCALE` carry six
/// fractional decimal digits.
pub const SCALE: u64 = 1_000_000;

pub const SECONDS_PER_DAY: u64 = 86_400;

/// The single aggregate record kept per user. `streak_bonus_pool` is a
/// multiplier in (0, 1], stored in units of `1 / SCALE`.
#[derive(Clone, Debug)]
pub struct UserStats {
    pub total_points: u64,
    pub current_streak: u32,
    pub longest_streak: u32,
    pub last_completion_date: Option<u64>,
    pub tasks_completed: u32,
    pub total_focus_time: u64,
    pub streak_bonus_pool: u64,
}

impl UserStats {
    /// Well-formedness: the streak never exceeds its high-water mark, the
    /// bonus pool stays in (0, 1], and the last completion instant is a
    /// bounded timestamp.
    pub open spec fn wf(self) -> bool {
        &&& self.current_streak <= self.longest_streak
        &&& 1 <= self.streak_bonus_pool <= SCALE
        &&& (self.last_completion_date is Some ==> valid_time(self.last_completion_date->0))
    }

    /// Runtime check for `wf`, for callers that load the record from
    /// storage and must validate it before handing it to the library.
    pub fn check_wf(&self) -> (b: bool)
        ensures
            b == self.wf(),
    {
        self.current_streak <= self.longest_streak && 1 <= self.streak_bonus_pool
            && self.streak_bonus_pool <= SCALE && (match self.last_completion_date {
            Some(t) => t <= TIME_MAX,
            None => true,
        })
    }
}

impl Default for UserStats {
    /// A fresh record: nothing completed yet and a full bonus pool.
    fn default() -> (s: UserStats)
        ensures
            s.wf(),
            s.total_points == 0,
            s.current_streak == 0,
            s.longest_streak == 0,
            s.last_completion_date is None,
            s.tasks_completed == 0,
            s.total_focus_time == 0,
            s.streak_bonus_pool == SCALE,
    {
        UserStats {
            total_points: 0,
            current_streak: 0,
            longest_streak: 0,
            last_completion_date: None,
            tasks_completed: 0,
            total_focus_time: 0,
            streak_bonus_pool: SCALE,
        }
    }
}

/// Whole days elapsed between the previous completion and `now`.
pub open spec fn spec_days_since(last: u64, now: u64) -> int {
    (now - last) / (SECONDS_PER_DAY as int)
}

/// A decayed pool value: `pool * numer / 10`, held at or above one unit of
/// `1 / SCALE` so the pool stays strictly positive.
pub open spec fn spec_pool_decayed(pool: u64, numer: u64) -> u64 {
    if pool * numer / 10 >= 1 {
        (pool * numer / 10) as u64
    } else {
        1
    }
}

/// The streak update run on every completion, given the completion
/// instant `now`:
/// - no prior completion: the streak starts at 1;
/// - same day: streak and pool are untouched;
/// - next day: the streak grows by one, the pool recovers by 0.1 up to 1;
/// - a gap of 2 or 3 days: the pool decays to 0.7 of itself and the
///   streak is halved (partial forgiveness);
/// - a longer gap: the pool decays to 0.3 of itself and the streak resets.
/// The last completion date always becomes `now`.
pub open spec fn spec_update_streak(s: UserStats, now: u64) -> UserStats {
    match s.last_completion_date {
        None => UserStats {
            current_streak: 1,
            longest_streak: if s.longest_streak >= 1 {
                s.longest_streak
            } else {
                1
            },
            last_completion_date: Some(now),
            ..s
        },
        Some(last) => {
            let days = spec_days_since(last, now);
            if days == 0 {
                UserStats { last_completion_date: Some(now), ..s }
            } else if days == 1 {
                let streak = ((s.current_streak + 1) as u32);
                UserStats {
                    current_streak: streak,
                    longest_streak: if s.longest_streak >= streak {
                        s.longest_streak
                    } else {
                        streak
                    },
                    streak_bonus_pool: if s.streak_bonus_pool + 100_000 <= SCALE {
                        ((s.streak_bonus_pool + 100_000) as u64)
                    } else {
                        SCALE
                    },
                    last_completion_date: Some(now),
                    ..s
                }
            } else if 2 <= days && days <= 3 {
                UserStats {
                    current_streak: (((s.current_streak as int) / 2) as u32),
                    streak_bonus_pool: spec_pool_decayed(s.streak_bonus_pool, 7),
                    last_completion_date: Some(now),
                    ..s
                }
            } else {
                UserStats {
                    current_streak: 0,
                    streak_bonus_pool: spec_pool_decayed(s.streak_bonus_pool, 3),
                    last_completion_date: Some(now),
                    ..s
                }
            }
        },
    }
}

/// One streak update preserves well-formedness: in particular the bonus
/// pool stays in (0, 1] and the longest streak never decreases. The
/// update touches no point, completion or focus-time counter.
pub proof fn lemma_update_streak_props(s: UserStats, now: u64)
    requires
        s.wf(),
        valid_time(now),
        s.last_completion_date is Some ==> s.last_completion_date->0 <= now,
    ensures
        spec_update_streak(s, now).wf(),
        1 <= spec_update_streak(s, now).streak_bonus_pool <= SCALE,
        spec_update_streak(s, now).longest_streak >= s.longest_streak,
        spec_update_streak(s, now).total_points == s.total_points,
        spec_update_streak(s, now).tasks_completed == s.tasks_completed,
        spec_update_streak(s, now).total_focus_time == s.total_focus_time,
        spec_update_streak(s, now).last_completion_date == Some(now),
{
    let p = s.streak_bonus_pool;
    assert(p * 7 / 10 <= p && p * 3 / 10 <= p) by (nonlinear_arith)
        requires 1 <= p,
    ;
}

/// Update the streak for a completion at instant `now`. Same-day
/// completions leave streak, pool and high-water mark untouched; the last
/// completion date always becomes `now`.
pub fn update_streak(stats: &mut UserStats, now: u64)
    requires
        old(stats).wf(),
        valid_time(now),
        old(stats).last_completion_date is Some ==> old(stats).last_completion_date->0 <= now,
        old(stats).current_streak < u32::MAX,
    ensures
        *final(stats) == spec_update_streak(*old(stats), now),
        final(stats).wf(),
        1 <= final(stats).streak_bonus_pool <= SCALE,
        final(stats).longest_streak >= old(stats).longest_streak,
        final(stats).last_completion_date == Some(now),
        final(stats).total_points == old(stats).total_points,
        final(stats).tasks_completed == old(stats).tasks_completed,
        final(stats).total_focus_time == old(stats).total_focus_time,
        (old(stats).last_completion_date is Some && spec_days_since(
            old(stats).last_completion_date->0,
            now,
        ) == 0) ==> {
            &&& final(stats).current_streak == old(stats).current_streak
            &&& final(stats).streak_bonus_pool == old(stats).streak_bonus_pool
            &&& final(stats).longest_streak == old(stats).longest_streak
        },
{
    proof {
        lemma_update_streak_props(*old(stats), now);
    }
    match stats.last_completion_date {
        Some(last) => {
            let days = (now - last) / SECONDS_PER_DAY;
            if days == 0 {
                // Same day: streak and pool do not stack.
            } else if days == 1 {
                stats.current_streak = stats.current_streak + 1;
                let recovered = stats.streak_bonus_pool + 100_000;
                stats.streak_bonus_pool = if recovered <= SCALE {
                    recovered
                } else {
                    SCALE
                };
                if stats.current_streak > stats.longest_streak {
                    stats.longest_streak = stats.current_streak;
                }
            } else if days <= 3 {
                let decayed = stats.streak_bonus_pool * 7 / 10;
                stats.streak_bonus_pool = if decayed >= 1 {
                    decayed
                } else {
                    1
                };
                stats.current_streak = stats.current_streak / 2;
            } else {
                let decayed = stats.streak_bonus_pool * 3 / 10;
                stats.streak_bonus_pool = if decayed >= 1 {
                    decayed
                } else {
                    1
                };
                stats.current_streak = 0;
            }
        },
        None => {
            stats.current_streak = 1;
            if stats.longest_streak < 1 {
                stats.longest_streak = 1;
            }
        },
    }
    stats.last_completion_date = Some(now);
}

/// The record after a whole run of streak updates, one per completion
/// instant, oldest first.
pub open spec fn spec_apply_streak_updates(s: UserStats, times: Seq<u64>) -> UserStats
    decreases times.len(),
{
    if times.len() == 0 {
        s
    } else {
        spec_apply_streak_updates(spec_update_streak(s, times[0]), times.drop_first())
    }
}

/// A run of completion instants the clock can produce: each is bounded
/// and none precedes the last completion recorded before it.
pub open spec fn admissible_times(s: UserStats, times: Seq<u64>) -> bool
    decreases times.len(),
{
    times.len() == 0 || {
        &&& valid_time(times[0])
        &&& (s.last_completion_date is Some ==> s.last_completion_date->0 <= times[0])
        &&& admissible_times(spec_update_streak(s, times[0]), times.drop_first())
    }
}

/// After any number of streak updates, for any admissible run of
/// completion instants, the record stays well-formed: the bonus pool is
/// still in (0, 1] — it never reaches zero and never exceeds one — and
/// the longest streak has not decreased.
pub proof fn lemma_streak_laws(s: UserStats, times: Seq<u64>)
    requires
        s.wf(),
        admissible_times(s, times),
    ensures
        spec_apply_streak_updates(s, times).wf(),
        1 <= spec_apply_streak_updates(s, times).streak_bonus_pool <= SCALE,
        spec_apply_streak_updates(s, times).longest_streak >= s.longest_streak,
    decreases times.len(),
{
    if times.len() > 0 {
        lemma_update_streak_props(s, times[0]);
        lemma_streak_laws(spec_update_streak(s, times[0]), times.drop_first());
    }
}

} // verus!
