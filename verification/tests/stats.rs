use study_tracker::rounding::minutes_of_seconds;
use study_tracker::stats::stats_from_sums;
use study_tracker::tracker::Tracker;

#[test]
fn minutes_round_to_nearest_ties_up() {
    assert_eq!(minutes_of_seconds(0), 0);
    assert_eq!(minutes_of_seconds(29), 0);
    assert_eq!(minutes_of_seconds(30), 1);
    assert_eq!(minutes_of_seconds(89), 1);
    assert_eq!(minutes_of_seconds(90), 2);
    assert_eq!(minutes_of_seconds(119), 2);
}

#[test]
fn hours_round_to_hundredths_ties_up() {
    // 17 s = 0.0047 h rounds down; 18 s = 0.005 h is a tie and rounds up
    assert_eq!(stats_from_sums(17, 0).b1_plus_hundredths, 0);
    assert_eq!(stats_from_sums(18, 0).b1_plus_hundredths, 1);
    assert_eq!(stats_from_sums(0, 3600).b2_hundredths, 100);
}

#[test]
fn combined_total_rounds_the_raw_sum_once() {
    // 7199 s + 1 s = 7200 s = exactly 2.00 h
    let stats = stats_from_sums(7199, 1);
    assert_eq!(stats.b1_plus_hundredths, 200);
    assert_eq!(stats.b2_hundredths, 0);
    assert_eq!(stats.total_hundredths, 200);
}

#[test]
fn combined_total_differs_from_sum_of_rounded_levels() {
    // each level alone rounds up to 0.50 h, but the raw sum rounds to 0.99 h
    let stats = stats_from_sums(1790, 1790);
    assert_eq!(stats.b1_plus_hundredths, 50);
    assert_eq!(stats.b2_hundredths, 50);
    assert_eq!(stats.total_hundredths, 99);
}

#[test]
fn zero_sessions_report_zero_hours() {
    let stats = stats_from_sums(0, 0);
    assert_eq!(stats.b1_plus_hundredths, 0);
    assert_eq!(stats.b2_hundredths, 0);
    assert_eq!(stats.total_hundredths, 0);
}

#[test]
fn goal_constants_are_static() {
    let empty = stats_from_sums(0, 0);
    assert_eq!(empty.b1_plus_goal_hundredths, 20000); // 200.00 hours
    assert_eq!(empty.b2_goal_hundredths, 32000); // 320.00 hours
    let busy = stats_from_sums(123456, 654321);
    assert_eq!(busy.b1_plus_goal_hundredths, 20000);
    assert_eq!(busy.b2_goal_hundredths, 32000);
    let tracker_stats = Tracker::new().get_stats();
    assert_eq!(tracker_stats.b1_plus_goal_hundredths, 20000);
    assert_eq!(tracker_stats.b2_goal_hundredths, 32000);
}

#[test]
fn stats_sum_multiple_sessions_per_level() {
    let mut t = Tracker::new();
    let a = t.start_at("b1_plus", "a".to_string(), 0).unwrap();
    t.stop_at(&a, 1800).unwrap();
    let b = t.start_at("B1_PLUS", "b".to_string(), 0).unwrap();
    t.stop_at(&b, 1800).unwrap();
    let stats = t.get_stats();
    assert_eq!(stats.b1_plus_hundredths, 100); // 3600 s in all
    assert_eq!(stats.total_hundredths, 100);
}
