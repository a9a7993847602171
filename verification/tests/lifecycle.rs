use study_tracker::errors::TrackerError;
use study_tracker::tracker::Tracker;

#[test]
fn round_trip_reports_rounded_minutes() {
    let mut t = Tracker::new();
    let id = t
        .start_at("b1_plus", "id-1".to_string(), 1000)
        .expect("valid level must start");
    assert_eq!(id, "id-1".to_string());
    let minutes = t.stop_at(&id, 1000 + 150).expect("open session must stop");
    // 150 s = 2.5 min, ties round up
    assert_eq!(minutes, 3);
}

#[test]
fn round_trip_zero_elapsed_is_zero_minutes() {
    let mut t = Tracker::new();
    let id = t.start_at("B2", "id-1".to_string(), 500).unwrap();
    let minutes = t.stop_at(&id, 500).unwrap();
    assert_eq!(minutes, 0);
}

#[test]
fn second_stop_fails_already_stopped() {
    let mut t = Tracker::new();
    let id = t.start_at("B2", "id-1".to_string(), 0).unwrap();
    t.stop_at(&id, 3600).unwrap();
    let stats_after_first = t.get_stats();
    assert_eq!(t.stop_at(&id, 7200), Err(TrackerError::AlreadyStopped));
    // the failed second stop changed nothing
    assert_eq!(t.get_stats(), stats_after_first);
}

#[test]
fn discard_is_final() {
    let mut t = Tracker::new();
    let id = t.start_at("b2", "id-1".to_string(), 0).unwrap();
    t.discard(&id).expect("existing session must discard");
    assert_eq!(t.stop_at(&id, 100), Err(TrackerError::NotFound));
    assert_eq!(t.discard(&id), Err(TrackerError::NotFound));
}

#[test]
fn discard_works_on_closed_sessions_too() {
    let mut t = Tracker::new();
    let id = t.start_at("B2", "id-1".to_string(), 0).unwrap();
    t.stop_at(&id, 60).unwrap();
    assert_eq!(t.discard(&id), Ok(()));
    // and its time no longer counts
    let stats = t.get_stats();
    assert_eq!(stats.b2_hundredths, 0);
}

#[test]
fn stop_unknown_id_not_found() {
    let mut t = Tracker::new();
    assert_eq!(
        t.stop_at(&"missing".to_string(), 10),
        Err(TrackerError::NotFound)
    );
}

#[test]
fn discard_unknown_id_not_found() {
    let mut t = Tracker::new();
    assert_eq!(t.discard(&"missing".to_string()), Err(TrackerError::NotFound));
}

#[test]
fn clock_regression_rejected() {
    let mut t = Tracker::new();
    let id = t.start_at("B2", "id-1".to_string(), 100).unwrap();
    assert_eq!(t.stop_at(&id, 99), Err(TrackerError::ClockRegression));
    // the rejected stop persisted nothing: the session is still open
    let minutes = t.stop_at(&id, 100 + 60).unwrap();
    assert_eq!(minutes, 1);
}

#[test]
fn duplicate_id_rejected_without_change() {
    let mut t = Tracker::new();
    t.start_at("B2", "id-1".to_string(), 0).unwrap();
    assert_eq!(
        t.start_at("B2", "id-1".to_string(), 5),
        Err(TrackerError::Store)
    );
}

#[test]
fn open_session_contributes_nothing_to_stats() {
    let mut t = Tracker::new();
    t.start_at("b1_plus", "id-1".to_string(), 0).unwrap();
    let stats = t.get_stats();
    assert_eq!(stats.b1_plus_hundredths, 0);
    assert_eq!(stats.b2_hundredths, 0);
    assert_eq!(stats.total_hundredths, 0);
}

#[test]
fn stopped_session_counts_toward_its_level_only() {
    let mut t = Tracker::new();
    let id = t.start_at("b1_plus", "id-1".to_string(), 0).unwrap();
    t.stop_at(&id, 3600).unwrap();
    let stats = t.get_stats();
    assert_eq!(stats.b1_plus_hundredths, 100); // 1.00 hour
    assert_eq!(stats.b2_hundredths, 0);
    assert_eq!(stats.total_hundredths, 100);
}

#[test]
fn start_with_fresh_id_and_real_clock() {
    let mut t = Tracker::new();
    let id = t.start("b1_plus").expect("valid level must start");
    assert_eq!(id.len(), 36);
    let minutes = t.stop(&id).expect("open session must stop");
    // stopped right away: well under half a minute elapsed
    assert_eq!(minutes, 0);
}

#[test]
fn start_rejects_invalid_level_with_real_clock() {
    let mut t = Tracker::new();
    assert_eq!(t.start("C1"), Err(TrackerError::InvalidLevel));
}
