//! The scoring engine: a pure computation run once per completion. It
//! turns a completed task and the user's aggregate record into an integer
//! point award, and applies the statistic mutations that follow.
//!
//! All fractional rules are computed in fixed-point arithmetic with six
//! fractional decimal digits (`SCALE` from the stats module), flooring at
//! each division, so every quantity is a plain integer.

use vstd::prelude::*;

verus! {

use crate::stats::{
    spec_update_streak,
    update_streak,
    UserStats,
    SCALE,
};
use crate::task::{valid_time, Task, TIME_MAX};

/// Base points of a task: ten per difficulty step.
pub open spec fn base_points(difficulty: u8) -> int {
    difficulty * 10
}

/// The time-efficiency bonus, scaled by `SCALE`. A task that was started
/// and completed faster than the historical average for its difficulty
/// earns up to half its base points, in proportion to the time saved; the
/// first completion at a difficulty (no average yet) earns a flat bonus
/// of twice the difficulty; anything else earns nothing.
pub open spec fn spec_time_bonus_micro(t: Task, avg_seconds: Option<u64>) -> int {
    if t.started_at is Some && t.completed_at is Some {
        match avg_seconds {
            Some(avg) => if t.active_seconds() < avg {
                let ratio = (avg - t.active_seconds()) * SCALE / (avg as int);
                let capped = if ratio <= 500_000 {
                    ratio
                } else {
                    500_000
                };
                base_points(t.difficulty) * capped
            } else {
                0
            },
            None => t.difficulty * 2 * SCALE,
        }
    } else {
        0
    }
}

/// The focus bonus, scaled by `SCALE`: for a started and completed task
/// with a positive wall-clock span, the share of that span spent active
/// beyond 0.8 earns up to a tenth of the base points.
pub open spec fn spec_focus_bonus_micro(t: Task) -> int {
    if t.started_at is Some && t.completed_at is Some {
        let total = t.completed_at->0 - t.started_at->0;
        if total > 0 {
            let ratio = (total - t.total_pause_duration) * SCALE / total;
            let excess = if ratio >= 800_000 {
                ratio - 800_000
            } else {
                0
            };
            base_points(t.difficulty) * excess / 2
        } else {
            0
        }
    } else {
        0
    }
}

/// The base points under the streak multiplier, scaled by `SCALE`: the
/// multiplier is one plus 0.05 per streak day (capped at +0.5), damped by
/// the streak bonus pool.
pub open spec fn spec_streak_term_micro(s: UserStats, difficulty: u8) -> int {
    let part = if s.current_streak * 50_000 <= 500_000 {
        s.current_streak * 50_000
    } else {
        500_000
    };
    base_points(difficulty) * (SCALE + part) * s.streak_bonus_pool / (SCALE as int)
}

/// The whole award: streak-multiplied base plus both bonuses, floored to
/// whole points, but never less than half the base points.
pub open spec fn spec_task_points(t: Task, s: UserStats, avg_seconds: Option<u64>) -> int {
    let total_micro = spec_streak_term_micro(s, t.difficulty) + spec_time_bonus_micro(
        t,
        avg_seconds,
    ) + spec_focus_bonus_micro(t);
    let floored = total_micro / (SCALE as int);
    let half_base = base_points(t.difficulty) / 2;
    if floored >= half_base {
        floored
    } else {
        half_base
    }
}

/// The time-efficiency bonus in fixed point.
fn calculate_time_bonus(task: &Task, avg_seconds: Option<u64>) -> (bonus: u64)
    requires
        task.wf(),
        avg_seconds is Some ==> avg_seconds->0 <= TIME_MAX,
    ensures
        bonus == spec_time_bonus_micro(*task, avg_seconds),
        bonus <= 50_000_000,
{
    if let (Some(started), Some(completed)) = (task.started_at, task.completed_at) {
        let actual = completed - started - task.total_pause_duration;
        match avg_seconds {
            Some(avg) => {
                if actual < avg {
                    let ratio = (avg - actual) * SCALE / avg;
                    let capped = if ratio <= 500_000 {
                        ratio
                    } else {
                        500_000
                    };
                    let base = (task.difficulty as u64) * 10;
                    proof {
                        assert(base * capped <= 50_000_000) by (nonlinear_arith)
                            requires base <= 100 && 0 <= capped <= 500_000,
                        ;
                    }
                    base * capped
                } else {
                    0
                }
            },
            None => (task.difficulty as u64) * 2 * SCALE,
        }
    } else {
        0
    }
}

/// The focus bonus in fixed point.
fn calculate_focus_bonus(task: &Task) -> (bonus: u64)
    requires
        task.wf(),
    ensures
        bonus == spec_focus_bonus_micro(*task),
        bonus <= 10_000_000,
{
    if let (Some(started), Some(completed)) = (task.started_at, task.completed_at) {
        let total = completed - started;
        if total > 0 {
            let active = total - task.total_pause_duration;
            let ratio = active * SCALE / total;
            proof {
                assert(ratio <= SCALE) by (nonlinear_arith)
                    requires
                        0 <= active <= total && 1 <= total && ratio == active * SCALE / (
                        total as int),
                ;
            }
            let excess = if ratio >= 800_000 {
                ratio - 800_000
            } else {
                0
            };
            let base = (task.difficulty as u64) * 10;
            proof {
                assert(base * excess / 2 <= 10_000_000) by (nonlinear_arith)
                    requires base <= 100 && 0 <= excess <= 200_000,
                ;
            }
            base * excess / 2
        } else {
            0
        }
    } else {
        0
    }
}

/// The streak-multiplied base points in fixed point.
fn calculate_streak_term(user_stats: &UserStats, difficulty: u8) -> (term: u64)
    requires
        user_stats.wf(),
        1 <= difficulty <= 10,
    ensures
        term == spec_streak_term_micro(*user_stats, difficulty),
        term <= 150_000_000,
{
    let part: u64 = if user_stats.current_streak <= 10 {
        (user_stats.current_streak as u64) * 50_000
    } else {
        500_000
    };
    let mult = SCALE + part;
    let base = (difficulty as u64) * 10;
    proof {
        assert(base * mult <= 150_000_000) by (nonlinear_arith)
            requires base <= 100 && mult <= 1_500_000,
        ;
    }
    let scaled = base * mult;
    proof {
        assert(scaled * user_stats.streak_bonus_pool / (SCALE as int) <= scaled)
            by (nonlinear_arith)
            requires
                0 <= scaled && 1 <= user_stats.streak_bonus_pool <= SCALE && SCALE == 1_000_000,
        ;
        assert(scaled * user_stats.streak_bonus_pool <= 150_000_000 * 1_000_000)
            by (nonlinear_arith)
            requires 0 <= scaled <= 150_000_000 && 0 <= user_stats.streak_bonus_pool <= 1_000_000,
        ;
    }
    scaled * user_stats.streak_bonus_pool / SCALE
}

/// Calculate the points awarded for a completed task: base points times
/// the streak multiplier, plus the time and focus bonuses, floored to a
/// whole number of points — but never less than half the base points,
/// whatever the penalties.
pub fn calculate_task_points(task: &Task, user_stats: &UserStats, avg_seconds: Option<u64>) -> (
    points: u64)
    requires
        task.wf(),
        user_stats.wf(),
        avg_seconds is Some ==> avg_seconds->0 <= TIME_MAX,
    ensures
        points == spec_task_points(*task, *user_stats, avg_seconds),
        base_points(task.difficulty) / 2 <= points,
        points <= 210,
{
    let streak_term = calculate_streak_term(user_stats, task.difficulty);
    let time_bonus = calculate_time_bonus(task, avg_seconds);
    let focus_bonus = calculate_focus_bonus(task);
    let total_micro = streak_term + time_bonus + focus_bonus;
    let floored = total_micro / SCALE;
    let half_base = (task.difficulty as u64) * 10 / 2;
    if floored >= half_base {
        floored
    } else {
        half_base
    }
}

/// The exact completion counts at which a milestone bonus is due — at
/// these and no others.
pub open spec fn is_milestone(n: int) -> bool {
    n == 10 || n == 25 || n == 50 || n == 100 || n == 250 || n == 500
}

/// The one-time bonus granted when the completion count hits a milestone.
pub open spec fn milestone_bonus(n: int) -> int {
    if n / 10 >= 1 {
        100 * (n / 10)
    } else {
        100
    }
}

/// The seconds of active focus a completed task contributes: its active
/// duration if it was both started and completed, nothing otherwise.
pub open spec fn spec_focus_add(t: Task) -> int {
    if t.started_at is Some && t.completed_at is Some {
        t.active_seconds()
    } else {
        0
    }
}

/// The whole statistic mutation a completion performs: totals first, then
/// the streak update, then the milestone bonus on the new count.
pub open spec fn spec_update_stats(s: UserStats, t: Task, points: u64, now: u64) -> UserStats {
    let counted = UserStats {
        total_points: ((s.total_points + points) as u64),
        tasks_completed: ((s.tasks_completed + 1) as u32),
        total_focus_time: ((s.total_focus_time + spec_focus_add(t)) as u64),
        ..s
    };
    let streaked = spec_update_streak(counted, now);
    if is_milestone(streaked.tasks_completed as int) {
        UserStats {
            total_points: ((streaked.total_points + milestone_bonus(
                streaked.tasks_completed as int,
            )) as u64),
            ..streaked
        }
    } else {
        streaked
    }
}

/// Update the user statistics after completing a task worth `points`:
/// add the points and the task's active time to the totals, bump the
/// completion count, run the streak update for instant `now`, and grant
/// the milestone bonus exactly when the new count is one of the
/// milestone thresholds.
pub fn update_stats_on_completion(stats: &mut UserStats, task: &Task, points: u64, now: u64)
    requires
        old(stats).wf(),
        task.wf(),
        valid_time(now),
        old(stats).last_completion_date is Some ==> old(stats).last_completion_date->0 <= now,
        old(stats).current_streak < u32::MAX,
        old(stats).tasks_completed < u32::MAX,
        old(stats).total_points + points + 5000 <= u64::MAX,
        old(stats).total_focus_time + TIME_MAX <= u64::MAX,
    ensures
        *final(stats) == spec_update_stats(*old(stats), *task, points, now),
        final(stats).wf(),
        final(stats).tasks_completed == old(stats).tasks_completed + 1,
        final(stats).total_points == old(stats).total_points + points + (if is_milestone(
            old(stats).tasks_completed + 1,
        ) {
            milestone_bonus(old(stats).tasks_completed + 1)
        } else {
            0
        }),
        final(stats).total_focus_time == old(stats).total_focus_time + spec_focus_add(*task),
        final(stats).longest_streak >= old(stats).longest_streak,
        1 <= final(stats).streak_bonus_pool <= SCALE,
        final(stats).last_completion_date == Some(now),
{
    stats.total_points = stats.total_points + points;
    stats.tasks_completed = stats.tasks_completed + 1;
    if let (Some(started), Some(completed)) = (task.started_at, task.completed_at) {
        let active = completed - started - task.total_pause_duration;
        stats.total_focus_time = stats.total_focus_time + active;
    }
    update_streak(stats, now);
    let count = stats.tasks_completed;
    if count == 10 || count == 25 || count == 50 || count == 100 || count == 250 || count == 500 {
        let tenth = count / 10;
        let factor = if tenth >= 1 {
            tenth
        } else {
            1
        };
        stats.total_points = stats.total_points + (100 * factor) as u64;
    }
}

/// Whether a task counts toward the focus score: started, completed, and
/// with a positive wall-clock span.
pub open spec fn qualifies_focus(t: Task) -> bool {
    t.started_at is Some && t.completed_at is Some && t.completed_at->0 - t.started_at->0 > 0
}

/// The share of a qualifying task's wall-clock span spent active, scaled
/// by `SCALE`.
pub open spec fn focus_ratio_micro(t: Task) -> int {
    let total = t.completed_at->0 - t.started_at->0;
    (total - t.total_pause_duration) * SCALE / total
}

pub open spec fn sum_focus_micro(ts: Seq<Task>) -> int
    decreases ts.len(),
{
    if ts.len() == 0 {
        0
    } else {
        sum_focus_micro(ts.drop_last()) + if qualifies_focus(ts.last()) {
            focus_ratio_micro(ts.last())
        } else {
            0
        }
    }
}

pub open spec fn count_focus(ts: Seq<Task>) -> int
    decreases ts.len(),
{
    if ts.len() == 0 {
        0
    } else {
        count_focus(ts.drop_last()) + if qualifies_focus(ts.last()) {
            1int
        } else {
            0int
        }
    }
}

/// The focus score: the mean active-time share of the qualifying tasks,
/// scaled to 0..=100 and capped at 100; zero when none qualifies.
pub open spec fn spec_focus_score(ts: Seq<Task>) -> int {
    if count_focus(ts) == 0 {
        0
    } else {
        let mean = sum_focus_micro(ts) / count_focus(ts);
        let scaled = mean * 100 / (SCALE as int);
        if scaled <= 100 {
            scaled
        } else {
            100
        }
    }
}

/// Calculate the focus score over recently completed tasks: the mean
/// share of wall-clock time spent active, as a whole number from 0 to
/// 100. Tasks without both a start and a completion time, or with an
/// empty span, do not count.
pub fn calculate_focus_score(tasks: &Vec<Task>) -> (score: u64)
    requires
        forall|i: int| 0 <= i < tasks@.len() ==> (#[trigger] tasks@[i]).wf(),
        tasks@.len() <= 1_000_000_000,
    ensures
        score == spec_focus_score(tasks@),
        score <= 100,
{
    let n = tasks.len();
    let mut sum: u64 = 0;
    let mut count: u64 = 0;
    for i in 0..n
        invariant
            n == tasks@.len(),
            n <= 1_000_000_000,
            forall|k: int| 0 <= k < tasks@.len() ==> (#[trigger] tasks@[k]).wf(),
            sum == sum_focus_micro(tasks@.subrange(0, i as int)),
            count == count_focus(tasks@.subrange(0, i as int)),
            count <= i,
            sum <= count * SCALE,
    {
        let t = &tasks[i];
        if t.started_at.is_some() && t.completed_at.is_some() {
            let started = t.started_at.unwrap();
            let completed = t.completed_at.unwrap();
            let total = completed - started;
            if total > 0 {
                let active = total - t.total_pause_duration;
                let ratio = active * SCALE / total;
                proof {
                    assert(ratio <= SCALE) by (nonlinear_arith)
                        requires
                            0 <= active <= total && 1 <= total && ratio == active * SCALE / (
                            total as int),
                    ;
                }
                sum = sum + ratio;
                count = count + 1;
            }
        }
        proof {
            assert(tasks@.subrange(0, i + 1).drop_last() =~= tasks@.subrange(0, i as int));
            assert(tasks@.subrange(0, i + 1).last() == tasks@[i as int]);
        }
    }
    proof {
        assert(tasks@.subrange(0, n as int) =~= tasks@);
    }
    if count == 0 {
        0
    } else {
        let mean = sum / count;
        proof {
            assert(mean <= SCALE) by (nonlinear_arith)
                requires 1 <= count && sum <= count * SCALE && mean == sum / count && SCALE >= 0,
            ;
        }
        let scaled = mean * 100 / SCALE;
        if scaled <= 100 {
            scaled
        } else {
            100
        }
    }
}

/// The historical average completion seconds recorded for a difficulty:
/// the first matching entry, if any.
pub open spec fn lookup_avg(avgs: Seq<(u8, u64)>, d: u8) -> Option<u64>
    decreases avgs.len(),
{
    if avgs.len() == 0 {
        None
    } else if avgs[0].0 == d {
        Some(avgs[0].1)
    } else {
        lookup_avg(avgs.drop_first(), d)
    }
}

/// Find the historical average seconds for a difficulty.
pub fn find_avg(avg_times: &Vec<(u8, u64)>, d: u8) -> (r: Option<u64>)
    ensures
        r == lookup_avg(avg_times@, d),
{
    let n = avg_times.len();
    proof {
        assert(avg_times@.subrange(0, n as int) =~= avg_times@);
    }
    for i in 0..n
        invariant
            n == avg_times@.len(),
            lookup_avg(avg_times@, d) == lookup_avg(avg_times@.subrange(i as int, n as int), d),
    {
        let pair = avg_times[i];
        proof {
            assert(avg_times@.subrange(i as int, n as int)[0] == avg_times@[i as int]);
            assert(avg_times@.subrange(i as int, n as int).drop_first() =~= avg_times@.subrange(
                i + 1,
                n as int,
            ));
        }
        if pair.0 == d {
            return Some(pair.1);
        }
    }
    None
}

/// Whether a task counts toward the efficiency score: started and
/// completed, a known historical average for its difficulty, and a
/// positive active duration.
pub open spec fn qualifies_eff(t: Task, avgs: Seq<(u8, u64)>) -> bool {
    &&& t.started_at is Some
    &&& t.completed_at is Some
    &&& lookup_avg(avgs, t.difficulty) is Some
    &&& t.active_seconds() > 0
}

/// Average-to-actual time ratio of a qualifying task, scaled by `SCALE`
/// and capped at 2.
pub open spec fn eff_ratio_micro(t: Task, avgs: Seq<(u8, u64)>) -> int {
    let r = lookup_avg(avgs, t.difficulty)->0 * SCALE / t.active_seconds();
    if r <= 2_000_000 {
        r
    } else {
        2_000_000
    }
}

pub open spec fn sum_eff_micro(ts: Seq<Task>, avgs: Seq<(u8, u64)>) -> int
    decreases ts.len(),
{
    if ts.len() == 0 {
        0
    } else {
        sum_eff_micro(ts.drop_last(), avgs) + if qualifies_eff(ts.last(), avgs) {
            eff_ratio_micro(ts.last(), avgs)
        } else {
            0
        }
    }
}

pub open spec fn count_eff(ts: Seq<Task>, avgs: Seq<(u8, u64)>) -> int
    decreases ts.len(),
{
    if ts.len() == 0 {
        0
    } else {
        count_eff(ts.drop_last(), avgs) + if qualifies_eff(ts.last(), avgs) {
            1int
        } else {
            0int
        }
    }
}

/// The efficiency score: the mean capped average-to-actual ratio of the
/// qualifying tasks, scaled by 50 and capped at 100; zero when none
/// qualifies.
pub open spec fn spec_efficiency_score(ts: Seq<Task>, avgs: Seq<(u8, u64)>) -> int {
    if count_eff(ts, avgs) == 0 {
        0
    } else {
        let mean = sum_eff_micro(ts, avgs) / count_eff(ts, avgs);
        let scaled = mean * 50 / (SCALE as int);
        if scaled <= 100 {
            scaled
        } else {
            100
        }
    }
}

/// Calculate the efficiency score over recently completed tasks: how
/// fast they were finished against the historical average for their
/// difficulty, as a whole number from 0 to 100. A ratio of one scores
/// 50; twice as fast as average (or better) scores 100.
pub fn calculate_efficiency_score(tasks: &Vec<Task>, avg_times: &Vec<(u8, u64)>) -> (score: u64)
    requires
        forall|i: int| 0 <= i < tasks@.len() ==> (#[trigger] tasks@[i]).wf(),
        forall|j: int| 0 <= j < avg_times@.len() ==> (#[trigger] avg_times@[j]).1 <= TIME_MAX,
        tasks@.len() <= 1_000_000_000,
    ensures
        score == spec_efficiency_score(tasks@, avg_times@),
        score <= 100,
{
    let n = tasks.len();
    let mut sum: u64 = 0;
    let mut count: u64 = 0;
    for i in 0..n
        invariant
            n == tasks@.len(),
            n <= 1_000_000_000,
            forall|k: int| 0 <= k < tasks@.len() ==> (#[trigger] tasks@[k]).wf(),
            forall|j: int| 0 <= j < avg_times@.len() ==> (#[trigger] avg_times@[j]).1 <= TIME_MAX,
            sum == sum_eff_micro(tasks@.subrange(0, i as int), avg_times@),
            count == count_eff(tasks@.subrange(0, i as int), avg_times@),
            count <= i,
            sum <= count * 2_000_000,
    {
        let t = &tasks[i];
        if t.started_at.is_some() && t.completed_at.is_some() {
            let started = t.started_at.unwrap();
            let completed = t.completed_at.unwrap();
            let actual = completed - started - t.total_pause_duration;
            match find_avg(avg_times, t.difficulty) {
                Some(avg) => {
                    if actual > 0 {
                        proof {
                            assert(lookup_avg(avg_times@, t.difficulty) is Some ==> exists|j: int|
                                0 <= j < avg_times@.len() && avg_times@[j].1 == lookup_avg(
                                    avg_times@,
                                    t.difficulty,
                                )->0) by {
                                lemma_lookup_avg_found(avg_times@, t.difficulty);
                            }
                        }
                        let ratio = avg * SCALE / actual;
                        let capped = if ratio <= 2_000_000 {
                            ratio
                        } else {
                            2_000_000
                        };
                        sum = sum + capped;
                        count = count + 1;
                    }
                },
                None => {},
            }
        }
        proof {
            assert(tasks@.subrange(0, i + 1).drop_last() =~= tasks@.subrange(0, i as int));
            assert(tasks@.subrange(0, i + 1).last() == tasks@[i as int]);
        }
    }
    proof {
        assert(tasks@.subrange(0, n as int) =~= tasks@);
    }
    if count == 0 {
        0
    } else {
        let mean = sum / count;
        proof {
            assert(mean <= 2_000_000) by (nonlinear_arith)
                requires 1 <= count && sum <= count * 2_000_000 && mean == sum / count,
            ;
        }
        let scaled = mean * 50 / SCALE;
        if scaled <= 100 {
            scaled
        } else {
            100
        }
    }
}

/// A looked-up average comes from some entry of the list.
proof fn lemma_lookup_avg_found(avgs: Seq<(u8, u64)>, d: u8)
    requires
        lookup_avg(avgs, d) is Some,
    ensures
        exists|j: int| 0 <= j < avgs.len() && avgs[j].1 == lookup_avg(avgs, d)->0,
    decreases avgs.len(),
{
    if avgs.len() > 0 {
        if avgs[0].0 == d {
            assert(avgs[0].1 == lookup_avg(avgs, d)->0);
        } else {
            lemma_lookup_avg_found(avgs.drop_first(), d);
            let j = choose|j: int|
                0 <= j < avgs.drop_first().len() && avgs.drop_first()[j].1 == lookup_avg(
                    avgs.drop_first(),
                    d,
                )->0;
            assert(avgs[j + 1].1 == lookup_avg(avgs, d)->0);
        }
    }
}

} // verus!
