use study_tracker::errors::TrackerError;
use study_tracker::level::{parse_level, Level};
use study_tracker::tracker::Tracker;

#[test]
fn canonical_names_are_accepted() {
    assert_eq!(parse_level("B1_PLUS"), Ok(Level::B1Plus));
    assert_eq!(parse_level("B2"), Ok(Level::B2));
}

#[test]
fn lowercase_names_are_normalized() {
    assert_eq!(parse_level("b1_plus"), Ok(Level::B1Plus));
    assert_eq!(parse_level("b2"), Ok(Level::B2));
    assert_eq!(parse_level("b1_Plus"), Ok(Level::B1Plus));
}

#[test]
fn unknown_levels_are_rejected() {
    assert_eq!(parse_level("C1"), Err(TrackerError::InvalidLevel));
    assert_eq!(parse_level(""), Err(TrackerError::InvalidLevel));
    assert_eq!(parse_level("B1"), Err(TrackerError::InvalidLevel));
    assert_eq!(parse_level("B1_PLUS "), Err(TrackerError::InvalidLevel));
    assert_eq!(parse_level("B2X"), Err(TrackerError::InvalidLevel));
}

#[test]
fn levels_render_their_canonical_name() {
    assert_eq!(Level::B1Plus.as_str(), "B1_PLUS");
    assert_eq!(Level::B2.as_str(), "B2");
}

#[test]
fn parsing_round_trips_through_the_canonical_name() {
    for level in [Level::B1Plus, Level::B2] {
        assert_eq!(parse_level(level.as_str()), Ok(level));
    }
}

#[test]
fn lowercase_start_is_recorded_under_the_canonical_level() {
    let mut t = Tracker::new();
    let id = t.start_at("b1_plus", "id-1".to_string(), 0).unwrap();
    t.stop_at(&id, 3600).unwrap();
    // the hour shows up under B1_PLUS, so the level was normalized
    assert_eq!(t.get_stats().b1_plus_hundredths, 100);
    assert_eq!(t.get_stats().b2_hundredths, 0);
}

#[test]
fn invalid_level_changes_nothing() {
    let mut t = Tracker::new();
    assert_eq!(
        t.start_at("A2", "id-1".to_string(), 0),
        Err(TrackerError::InvalidLevel)
    );
    // the id was not taken: a later start under it succeeds
    assert!(t.start_at("B2", "id-1".to_string(), 0).is_ok());
}
