use std::time::Duration;
use trpl::{race_winner, timeout_outcome, Either};

#[test]
fn timeout_passes_completed_value_through() {
    let d = Duration::from_millis(250);
    assert_eq!(timeout_outcome(Some(42u32), d), Ok(42u32));
}

#[test]
fn timeout_expiry_reports_the_configured_duration() {
    let d = Duration::from_millis(250);
    assert_eq!(timeout_outcome::<u32>(None, d), Err(d));
}

#[test]
fn timeout_expiry_with_zero_duration() {
    assert_eq!(timeout_outcome::<u32>(None, Duration::ZERO), Err(Duration::ZERO));
}

#[test]
fn race_first_ready_wins_as_left() {
    assert_eq!(race_winner(Some(7u32), None::<u32>), Some(Either::Left(7u32)));
}

#[test]
fn race_second_ready_wins_as_right() {
    assert_eq!(race_winner(None::<u32>, Some("won")), Some(Either::Right("won")));
}

#[test]
fn race_tie_favors_the_first_contender() {
    assert_eq!(race_winner(Some(1u8), Some(2u8)), Some(Either::Left(1u8)));
}

#[test]
fn race_with_neither_ready_has_no_winner_yet() {
    assert_eq!(race_winner::<u8, u8>(None, None), None);
}
