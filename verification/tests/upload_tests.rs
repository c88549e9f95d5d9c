use replay_agent::errors::UploadError;
use replay_agent::types::UploadStatus;
use replay_agent::upload::AttemptOutcome;
use replay_agent::upload::MAX_RETRIES;
use replay_agent::upload::backoff_secs;
use replay_agent::upload::begin_attempt;
use replay_agent::upload::create_record;
use replay_agent::upload::new_record;
use replay_agent::upload::record_attempt_failure;
use replay_agent::upload::record_attempt_success;
use replay_agent::upload::run_upload;

fn network_failure() -> AttemptOutcome {
    AttemptOutcome::Failure(UploadError::Network(String::from("connection reset")))
}

#[test]
fn success_on_final_attempt_after_failures() {
    // two simulated network failures, then a success on the final attempt:
    // attempts is 3 (not 4), the record completes, and the total backoff is
    // 1 + 2 = 3 seconds, with none after the successful attempt
    let outcomes = vec![
        network_failure(),
        network_failure(),
        AttemptOutcome::Success(String::from("r77")),
    ];
    let (record, backoff) = run_upload(
        "/r/match.replay",
        &outcomes,
        String::from("upload-1"),
        String::from("2026-01-01T00:00:00+00:00"),
        String::from("2026-01-01T00:00:10+00:00"),
    );
    assert_eq!(record.attempts, 3);
    assert!(matches!(record.status, UploadStatus::Completed));
    assert_eq!(backoff, 3);
    assert_eq!(record.replay_id.as_deref(), Some("r77"));
    assert_eq!(record.replay_url.as_deref(), Some("https://ballcam.tv/replays/r77"));
    assert_eq!(record.completed_at.as_deref(), Some("2026-01-01T00:00:10+00:00"));
    assert!(record.error_message.is_none());
}

#[test]
fn immediate_success_needs_one_attempt_and_no_backoff() {
    let outcomes = vec![
        AttemptOutcome::Success(String::from("42")),
        network_failure(),
        network_failure(),
    ];
    let (record, backoff) = run_upload(
        "/r/m.replay",
        &outcomes,
        String::from("upload-2"),
        String::from("2026-01-01T00:00:00+00:00"),
        String::from("2026-01-01T00:00:01+00:00"),
    );
    assert_eq!(record.attempts, 1);
    assert!(matches!(record.status, UploadStatus::Completed));
    assert_eq!(backoff, 0);
}

#[test]
fn success_on_second_attempt_sleeps_once() {
    let outcomes = vec![
        network_failure(),
        AttemptOutcome::Success(String::from("mid")),
        network_failure(),
    ];
    let (record, backoff) = run_upload(
        "/r/m.replay",
        &outcomes,
        String::from("upload-4"),
        String::from("2026-01-01T00:00:00+00:00"),
        String::from("2026-01-01T00:00:05+00:00"),
    );
    assert_eq!(record.attempts, 2);
    assert!(matches!(record.status, UploadStatus::Completed));
    assert_eq!(backoff, 1);
    assert_eq!(record.replay_id.as_deref(), Some("mid"));
}

#[test]
fn exhausted_retries_fail_with_last_error() {
    let outcomes = vec![
        network_failure(),
        AttemptOutcome::Failure(UploadError::RemoteRejected(500, String::from("oops"))),
        AttemptOutcome::Failure(UploadError::RemoteRejected(503, String::from("later"))),
    ];
    let (record, backoff) = run_upload(
        "/r/m.replay",
        &outcomes,
        String::from("upload-3"),
        String::from("2026-01-01T00:00:00+00:00"),
        String::from("2026-01-01T00:00:30+00:00"),
    );
    assert_eq!(record.attempts, 3);
    assert!(matches!(record.status, UploadStatus::Failed));
    assert_eq!(backoff, 3);
    // only the final attempt's error is retained
    assert_eq!(record.error_message.as_deref(), Some("Upload failed (503): later"));
    assert!(record.replay_id.is_none());
    assert!(record.completed_at.is_none());
}

#[test]
fn backoff_table_is_fixed() {
    assert_eq!(MAX_RETRIES, 3);
    assert_eq!(backoff_secs(1), 1);
    assert_eq!(backoff_secs(2), 2);
    assert_eq!(backoff_secs(3), 4);
}

#[test]
fn new_record_starts_pending() {
    let record = new_record(
        String::from("id-1"),
        "/r/sub/final.replay",
        String::from("2026-01-01T00:00:00+00:00"),
    );
    assert_eq!(record.filename, "final.replay");
    assert_eq!(record.file_path, "/r/sub/final.replay");
    assert!(matches!(record.status, UploadStatus::Pending));
    assert_eq!(record.attempts, 0);
    assert!(record.replay_id.is_none());
    assert!(record.error_message.is_none());
}

#[test]
fn filename_falls_back_for_pathless_input() {
    let record = new_record(String::from("id-2"), "/r/", String::from("t"));
    assert_eq!(record.filename, "unknown.replay");
    let record = new_record(String::from("id-3"), "C:\\games\\one.replay", String::from("t"));
    assert_eq!(record.filename, "one.replay");
}

#[test]
fn create_record_draws_a_fresh_id() {
    let a = create_record("/r/a.replay");
    let b = create_record("/r/a.replay");
    assert_eq!(a.id.len(), 36);
    assert_eq!(b.id.len(), 36);
    assert_ne!(a.id, b.id);
}

#[test]
fn manual_attempt_stepping_matches_the_loop() {
    let mut record = new_record(String::from("id-4"), "/r/a.replay", String::from("t"));
    begin_attempt(&mut record);
    assert_eq!(record.attempts, 1);
    assert!(matches!(record.status, UploadStatus::Uploading));
    let retry = record_attempt_failure(&mut record, &UploadError::Network(String::from("down")));
    assert_eq!(retry, Some(1));
    begin_attempt(&mut record);
    let retry = record_attempt_failure(&mut record, &UploadError::Network(String::from("down")));
    assert_eq!(retry, Some(2));
    begin_attempt(&mut record);
    record_attempt_success(
        &mut record,
        String::from("99"),
        String::from("2026-01-01T00:01:00+00:00"),
    );
    assert_eq!(record.attempts, 3);
    assert!(matches!(record.status, UploadStatus::Completed));
    assert_eq!(record.replay_url.as_deref(), Some("https://ballcam.tv/replays/99"));
}
