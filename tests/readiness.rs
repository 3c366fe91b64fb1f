use stream_accumulator::readiness::{compare_streams, is_ready};

#[test]
fn empty_history_is_ready() {
    assert!(is_ready(&[], 100));
}

#[test]
fn unchanged_single_value_is_not_ready() {
    assert!(!is_ready(&[100], 100));
}

#[test]
fn changed_value_is_ready() {
    assert!(is_ready(&[100], 150));
}

#[test]
fn settling_gap_is_ready_even_when_equal() {
    assert!(is_ready(&[100, 50], 100));
}

#[test]
fn settled_gap_and_equal_value_is_not_ready() {
    assert!(!is_ready(&[500, 100], 500));
}

#[test]
fn gap_of_exactly_one_hundred_is_ready() {
    assert!(is_ready(&[200, 100, 50], 200));
    assert!(!is_ready(&[201, 100, 50], 201));
}

#[test]
fn unknown_track_gives_no_answer() {
    assert_eq!(compare_streams(None, 10), None);
    assert_eq!(compare_streams(Some(&[]), 10), Some(true));
    assert_eq!(compare_streams(Some(&[10]), 10), Some(false));
}
