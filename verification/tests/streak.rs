use taskquest::scoring::update_stats_on_completion;
use taskquest::stats::{update_streak, UserStats, SCALE, SECONDS_PER_DAY};
use taskquest::task::Task;

const DAY: u64 = SECONDS_PER_DAY;

fn quick_completion(at: u64) -> Task {
    let mut t = Task::new(1, String::from("Task"), 5, 0);
    t.complete(at);
    t
}

#[test]
fn first_completion_starts_a_streak() {
    let mut s = UserStats::default();
    update_streak(&mut s, 1000);
    assert_eq!(s.current_streak, 1);
    assert_eq!(s.longest_streak, 1);
    assert_eq!(s.last_completion_date, Some(1000));
    assert_eq!(s.streak_bonus_pool, SCALE);
}

#[test]
fn same_day_completions_do_not_stack() {
    let mut s = UserStats::default();
    update_streak(&mut s, 1000);
    let streak = s.current_streak;
    let longest = s.longest_streak;
    let pool = s.streak_bonus_pool;
    // A second completion later the same day moves only the date.
    update_streak(&mut s, 1000 + DAY - 1);
    assert_eq!(s.current_streak, streak);
    assert_eq!(s.longest_streak, longest);
    assert_eq!(s.streak_bonus_pool, pool);
    assert_eq!(s.last_completion_date, Some(1000 + DAY - 1));
}

#[test]
fn next_day_extends_the_streak_and_refills_the_pool() {
    let mut s = UserStats::default();
    s.current_streak = 3;
    s.longest_streak = 3;
    s.streak_bonus_pool = 500_000;
    s.last_completion_date = Some(1000);
    update_streak(&mut s, 1000 + DAY);
    assert_eq!(s.current_streak, 4);
    assert_eq!(s.longest_streak, 4);
    assert_eq!(s.streak_bonus_pool, 600_000);
}

#[test]
fn pool_recovery_is_capped_at_one() {
    let mut s = UserStats::default();
    s.current_streak = 1;
    s.longest_streak = 1;
    s.streak_bonus_pool = 950_000;
    s.last_completion_date = Some(0);
    update_streak(&mut s, DAY);
    assert_eq!(s.streak_bonus_pool, SCALE);
}

#[test]
fn short_gap_halves_the_streak_and_decays_the_pool() {
    let mut s = UserStats::default();
    s.current_streak = 5;
    s.longest_streak = 8;
    s.last_completion_date = Some(0);
    update_streak(&mut s, 2 * DAY);
    assert_eq!(s.current_streak, 2);
    assert_eq!(s.longest_streak, 8);
    assert_eq!(s.streak_bonus_pool, 700_000);

    // A three-day gap behaves the same way.
    let mut s3 = UserStats::default();
    s3.current_streak = 5;
    s3.longest_streak = 8;
    s3.last_completion_date = Some(0);
    update_streak(&mut s3, 3 * DAY);
    assert_eq!(s3.current_streak, 2);
    assert_eq!(s3.streak_bonus_pool, 700_000);
}

#[test]
fn long_gap_resets_the_streak_but_not_the_pool() {
    // A five-day gap: the pool decays to 0.3 of itself and the streak
    // resets to zero, however long it was.
    let mut s = UserStats::default();
    s.current_streak = 40;
    s.longest_streak = 40;
    s.last_completion_date = Some(0);
    update_streak(&mut s, 5 * DAY);
    assert_eq!(s.current_streak, 0);
    assert_eq!(s.longest_streak, 40);
    assert_eq!(s.streak_bonus_pool, 300_000);
}

#[test]
fn pool_never_reaches_zero() {
    let mut s = UserStats::default();
    s.last_completion_date = Some(0);
    s.streak_bonus_pool = 1;
    update_streak(&mut s, 10 * DAY);
    assert_eq!(s.streak_bonus_pool, 1);
    assert!(s.streak_bonus_pool > 0);

    // Decay over and over: the pool stays strictly positive throughout.
    let mut s = UserStats::default();
    s.last_completion_date = Some(0);
    let mut now = 0u64;
    for _ in 0..100 {
        now += 10 * DAY;
        update_streak(&mut s, now);
        assert!(0 < s.streak_bonus_pool && s.streak_bonus_pool <= SCALE);
    }
    assert_eq!(s.streak_bonus_pool, 1);
}

#[test]
fn longest_streak_never_decreases_and_bounds_the_current() {
    let mut s = UserStats::default();
    let gaps = [1, 1, 1, 2, 1, 5, 1, 1, 3, 1, 0, 1];
    let mut now = 1000u64;
    let mut prev_longest = 0u32;
    for gap in gaps {
        now += gap * DAY;
        update_streak(&mut s, now);
        assert!(s.current_streak <= s.longest_streak);
        assert!(s.longest_streak >= prev_longest);
        prev_longest = s.longest_streak;
    }
}

#[test]
fn completion_updates_totals_and_focus_time() {
    let mut s = UserStats::default();
    let mut t = Task::new(1, String::from("Task"), 5, 0);
    t.toggle(100);
    t.complete(400);
    update_stats_on_completion(&mut s, &t, 65, 400);
    assert_eq!(s.total_points, 65);
    assert_eq!(s.tasks_completed, 1);
    assert_eq!(s.total_focus_time, 300);
    assert_eq!(s.current_streak, 1);
    assert_eq!(s.last_completion_date, Some(400));
}

#[test]
fn same_day_double_completion_changes_only_totals() {
    let mut s = UserStats::default();
    let t = quick_completion(1000);
    update_stats_on_completion(&mut s, &t, 65, 1000);
    let streak = s.current_streak;
    let longest = s.longest_streak;
    let pool = s.streak_bonus_pool;

    let t2 = quick_completion(2000);
    update_stats_on_completion(&mut s, &t2, 65, 2000);
    assert_eq!(s.current_streak, streak);
    assert_eq!(s.longest_streak, longest);
    assert_eq!(s.streak_bonus_pool, pool);
    assert_eq!(s.total_points, 130);
    assert_eq!(s.tasks_completed, 2);
    assert_eq!(s.last_completion_date, Some(2000));
}

#[test]
fn milestone_bonus_exactly_at_the_thresholds() {
    // Crossing 10 pays 100 * (10 / 10) = 100 extra.
    let mut s = UserStats::default();
    s.tasks_completed = 9;
    let t = quick_completion(1000);
    update_stats_on_completion(&mut s, &t, 50, 1000);
    assert_eq!(s.tasks_completed, 10);
    assert_eq!(s.total_points, 150);

    // Crossing 25 pays 100 * (25 / 10) = 200 extra.
    let mut s = UserStats::default();
    s.tasks_completed = 24;
    update_stats_on_completion(&mut s, &t, 50, 1000);
    assert_eq!(s.tasks_completed, 25);
    assert_eq!(s.total_points, 250);

    // Crossing 50 pays 500 extra.
    let mut s = UserStats::default();
    s.tasks_completed = 49;
    update_stats_on_completion(&mut s, &t, 50, 1000);
    assert_eq!(s.total_points, 550);
}

#[test]
fn milestone_bonus_at_the_higher_thresholds() {
    let t = quick_completion(1000);

    let mut s = UserStats::default();
    s.tasks_completed = 99;
    update_stats_on_completion(&mut s, &t, 50, 1000);
    assert_eq!(s.total_points, 50 + 1000);

    let mut s = UserStats::default();
    s.tasks_completed = 249;
    update_stats_on_completion(&mut s, &t, 50, 1000);
    assert_eq!(s.total_points, 50 + 2500);

    let mut s = UserStats::default();
    s.tasks_completed = 499;
    update_stats_on_completion(&mut s, &t, 50, 1000);
    assert_eq!(s.total_points, 50 + 5000);

    // 500 is the last threshold: crossing 501 pays nothing.
    let mut s = UserStats::default();
    s.tasks_completed = 500;
    update_stats_on_completion(&mut s, &t, 50, 1000);
    assert_eq!(s.total_points, 50);
}

#[test]
fn day_gap_boundaries() {
    // A gap below one full day still counts as the same day; exactly
    // one day extends the streak; exactly four days resets it.
    let mut s = UserStats::default();
    s.current_streak = 2;
    s.longest_streak = 2;
    s.last_completion_date = Some(1000);

    let mut same_day = s.clone();
    update_streak(&mut same_day, 1000 + DAY - 1);
    assert_eq!(same_day.current_streak, 2);

    let mut next_day = s.clone();
    update_streak(&mut next_day, 1000 + DAY);
    assert_eq!(next_day.current_streak, 3);

    let mut three_days = s.clone();
    update_streak(&mut three_days, 1000 + 3 * DAY);
    assert_eq!(three_days.current_streak, 1);
    assert_eq!(three_days.streak_bonus_pool, 700_000);

    let mut four_days = s.clone();
    update_streak(&mut four_days, 1000 + 4 * DAY);
    assert_eq!(four_days.current_streak, 0);
    assert_eq!(four_days.streak_bonus_pool, 300_000);
}

#[test]
fn no_milestone_bonus_at_adjacent_counts() {
    let t = quick_completion(1000);

    // 10 -> 11: no bonus.
    let mut s = UserStats::default();
    s.tasks_completed = 10;
    update_stats_on_completion(&mut s, &t, 50, 1000);
    assert_eq!(s.tasks_completed, 11);
    assert_eq!(s.total_points, 50);

    // 23 -> 24: no bonus either.
    let mut s = UserStats::default();
    s.tasks_completed = 23;
    update_stats_on_completion(&mut s, &t, 50, 1000);
    assert_eq!(s.tasks_completed, 24);
    assert_eq!(s.total_points, 50);
}

#[test]
fn default_stats_are_empty_with_a_full_pool() {
    let s = UserStats::default();
    assert_eq!(s.total_points, 0);
    assert_eq!(s.current_streak, 0);
    assert_eq!(s.longest_streak, 0);
    assert_eq!(s.last_completion_date, None);
    assert_eq!(s.tasks_completed, 0);
    assert_eq!(s.total_focus_time, 0);
    assert_eq!(s.streak_bonus_pool, SCALE);
}
