use env_check::download::progress_message;
use env_check::download::verify_write;
use env_check::download::ProgressTracker;
use env_check::error::InstallError;

#[test]
fn tracker_counts_every_byte() {
    let mut t = ProgressTracker::new(1000);
    t.record_chunk(100);
    t.record_chunk(0);
    t.record_chunk(400);
    assert_eq!(t.downloaded, 500);
    assert_eq!(t.total, 1000);
}

#[test]
fn tracker_emits_on_five_point_advance() {
    let mut t = ProgressTracker::new(200);
    assert_eq!(t.record_chunk(10), Some(5));
    assert_eq!(t.last_emitted, 5);
}

#[test]
fn tracker_holds_back_small_advances() {
    let mut t = ProgressTracker::new(200);
    assert_eq!(t.record_chunk(10), Some(5));
    assert_eq!(t.record_chunk(2), None);
    assert_eq!(t.last_emitted, 5);
    assert_eq!(t.record_chunk(8), Some(10));
}

#[test]
fn tracker_always_reports_completion() {
    let mut t = ProgressTracker::new(200);
    assert_eq!(t.record_chunk(190), Some(95));
    assert_eq!(t.record_chunk(10), Some(100));
}

#[test]
fn tracker_without_advertised_total_stays_silent() {
    let mut t = ProgressTracker::new(0);
    assert_eq!(t.record_chunk(4096), None);
    assert_eq!(t.record_chunk(4096), None);
    assert_eq!(t.downloaded, 8192);
}

#[test]
fn progress_message_names_the_percentage() {
    assert_eq!(progress_message(35), "Download progress: 35%");
    assert_eq!(progress_message(100), "Download progress: 100%");
    assert_eq!(progress_message(0), "Download progress: 0%");
}

#[test]
fn matching_byte_counts_verify() {
    assert_eq!(verify_write(123456, 123456), Ok(()));
}

#[test]
fn mismatched_byte_counts_are_an_incomplete_write() {
    assert_eq!(verify_write(123456, 123455), Err(InstallError::IncompleteWrite));
    assert_eq!(verify_write(0, 1), Err(InstallError::IncompleteWrite));
}
