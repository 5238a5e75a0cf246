use taskquest::scoring::{
    calculate_efficiency_score, calculate_focus_score, calculate_task_points, find_avg,
};
use taskquest::stats::UserStats;
use taskquest::task::Task;

fn completed_task(difficulty: u8, started: u64, finished: u64, pause: u64) -> Task {
    let mut t = Task::new(1, String::from("Task"), difficulty, 0);
    t.toggle(started);
    if pause > 0 {
        t.toggle(started); // pause immediately
        t.toggle(started + pause); // resume after `pause` seconds
    }
    t.complete(finished);
    t
}

fn fresh_stats() -> UserStats {
    UserStats::default()
}

#[test]
fn scenario_first_completion_at_difficulty_five() {
    // Difficulty 5, 100 seconds of uninterrupted work, no historical
    // average: base 50, flat time bonus 10, focus bonus 5, multiplier 1.
    let t = completed_task(5, 1000, 1100, 0);
    let points = calculate_task_points(&t, &fresh_stats(), None);
    assert_eq!(points, 65);
}

#[test]
fn never_started_task_earns_exactly_base() {
    // Title "Write report", difficulty 7, completed straight from
    // pending: no time bonus, no focus bonus, multiplier 1 with a full
    // pool, so exactly the base points — and never less than half of
    // them.
    let mut t = Task::new(1, String::from("Write report"), 7, 0);
    t.complete(500);
    let points = calculate_task_points(&t, &fresh_stats(), None);
    assert_eq!(points, 70);
}

#[test]
fn never_started_task_with_drained_pool_hits_the_floor() {
    let mut t = Task::new(1, String::from("Write report"), 7, 0);
    t.complete(500);
    let mut stats = fresh_stats();
    stats.streak_bonus_pool = 500_000; // multiplier 0.5
    let points = calculate_task_points(&t, &stats, None);
    // floor(70 * 0.5) = 35 = base / 2: the floor and the award meet.
    assert_eq!(points, 35);
}

#[test]
fn points_never_fall_below_half_base() {
    let mut t = Task::new(1, String::from("Write report"), 7, 0);
    t.complete(500);
    let mut stats = fresh_stats();
    stats.streak_bonus_pool = 1; // all but extinguished pool
    let points = calculate_task_points(&t, &stats, None);
    assert_eq!(points, 35); // exactly base / 2
}

#[test]
fn time_bonus_for_beating_the_average() {
    // Difficulty 4, 50 seconds against an average of 100: speed ratio
    // 0.5, time bonus 40 * 0.5 = 20; focus ratio 1.0 gives 40 * 0.2 * 0.5
    // = 4; base term 40. Total 64.
    let t = completed_task(4, 1000, 1050, 0);
    let points = calculate_task_points(&t, &fresh_stats(), Some(100));
    assert_eq!(points, 64);
}

#[test]
fn speed_ratio_is_capped_at_half() {
    // Finishing almost instantly against a huge average still earns at
    // most half the base points: 50 * 0.5 = 25, plus focus 5, base 50.
    let t = completed_task(5, 1000, 1001, 0);
    let points = calculate_task_points(&t, &fresh_stats(), Some(100_000));
    assert_eq!(points, 80);
}

#[test]
fn no_time_bonus_when_slower_than_average() {
    // 100 seconds against an average of 80: no time bonus; focus bonus 5.
    let t = completed_task(5, 1000, 1100, 0);
    let points = calculate_task_points(&t, &fresh_stats(), Some(80));
    assert_eq!(points, 55);
}

#[test]
fn pauses_erode_the_focus_bonus() {
    // 100 seconds wall clock with 30 paused: focus ratio 0.7 is under
    // 0.8, so no focus bonus; active time 70 beats the average 100 by
    // ratio 0.3: time bonus 50 * 0.3 = 15. Total 50 + 15 = 65.
    let t = completed_task(5, 1000, 1100, 30);
    let points = calculate_task_points(&t, &fresh_stats(), Some(100));
    assert_eq!(points, 65);
}

#[test]
fn streak_multiplier_scales_the_base() {
    // Streak 4 with a full pool: multiplier 1.2; difficulty 7 completed
    // from pending: floor(70 * 1.2) = 84.
    let mut t = Task::new(1, String::from("Write report"), 7, 0);
    t.complete(500);
    let mut stats = fresh_stats();
    stats.current_streak = 4;
    stats.longest_streak = 4;
    let points = calculate_task_points(&t, &stats, None);
    assert_eq!(points, 84);
}

#[test]
fn streak_multiplier_is_capped() {
    // Streak 30 caps the bonus at +0.5: floor(70 * 1.5) = 105.
    let mut t = Task::new(1, String::from("Write report"), 7, 0);
    t.complete(500);
    let mut stats = fresh_stats();
    stats.current_streak = 30;
    stats.longest_streak = 30;
    let points = calculate_task_points(&t, &stats, None);
    assert_eq!(points, 105);
}

#[test]
fn find_avg_returns_first_match() {
    let avgs: Vec<(u8, u64)> = vec![(3, 120), (5, 90), (5, 500)];
    assert_eq!(find_avg(&avgs, 5), Some(90));
    assert_eq!(find_avg(&avgs, 3), Some(120));
    assert_eq!(find_avg(&avgs, 9), None);
}

#[test]
fn focus_score_means_the_qualifying_ratios() {
    // Ratios 1.0 and 0.5 average to 0.75 -> 75.
    let a = completed_task(5, 0, 100, 0);
    let b = completed_task(5, 0, 100, 50);
    let tasks = vec![a, b];
    assert_eq!(calculate_focus_score(&tasks), 75);
}

#[test]
fn focus_score_ignores_tasks_without_a_span() {
    let mut never_started = Task::new(1, String::from("Quick"), 5, 0);
    never_started.complete(50);
    let zero_span = completed_task(5, 100, 100, 0);
    let full = completed_task(5, 0, 100, 0);
    let tasks = vec![never_started, zero_span, full];
    // Only the last task qualifies, with ratio 1.0 -> capped score 100.
    assert_eq!(calculate_focus_score(&tasks), 100);
}

#[test]
fn focus_score_zero_without_qualifying_tasks() {
    let mut never_started = Task::new(1, String::from("Quick"), 5, 0);
    never_started.complete(50);
    let tasks = vec![never_started];
    assert_eq!(calculate_focus_score(&tasks), 0);
    let empty: Vec<Task> = Vec::new();
    assert_eq!(calculate_focus_score(&empty), 0);
}

#[test]
fn efficiency_score_scales_and_caps() {
    // Exactly the average: ratio 1.0, scaled by 50 -> 50.
    let on_par = completed_task(5, 0, 100, 0);
    let avgs: Vec<(u8, u64)> = vec![(5, 100)];
    assert_eq!(calculate_efficiency_score(&vec![on_par], &avgs), 50);

    // Four times faster than average: capped at ratio 2.0 -> score 100.
    let fast = completed_task(5, 0, 25, 0);
    assert_eq!(calculate_efficiency_score(&vec![fast], &avgs), 100);
}

#[test]
fn scores_floor_fractional_results() {
    // One task active 2 of 3 seconds: the mean ratio 2/3 scales to
    // 66.66… and the score floors to 66.
    let t = completed_task(5, 0, 3, 1);
    assert_eq!(calculate_focus_score(&vec![t]), 66);
}

#[test]
fn efficiency_score_zero_without_known_average() {
    let t = completed_task(5, 0, 100, 0);
    let avgs: Vec<(u8, u64)> = vec![(9, 100)];
    assert_eq!(calculate_efficiency_score(&vec![t], &avgs), 0);
}
