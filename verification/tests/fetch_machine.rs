use onion_client::fetch::{FetchPhase, FetchSession, BODY_DEADLINE_MS};

#[test]
fn status_is_recorded_with_zero_body_frames() {
    let mut session = FetchSession::start(false);
    assert!(matches!(session.phase, FetchPhase::AwaitingHeaders));
    session.on_headers(200);
    session.on_stream_end();
    let snapshot = session.into_snapshot().expect("a completed fetch has a snapshot");
    assert_eq!(snapshot.status_code, 200);
    assert!(snapshot.body.is_empty());
    assert!(!snapshot.truncated);
}

#[test]
fn deadline_halts_body_accumulation() {
    let mut session = FetchSession::start(false);
    session.on_headers(200);
    assert!(session.on_frame(b"ab".to_vec(), 0));
    assert!(session.on_frame(b"cd".to_vec(), BODY_DEADLINE_MS - 1));
    let kept = session.on_frame(b"ef".to_vec(), BODY_DEADLINE_MS);
    assert!(!kept);
    assert!(matches!(session.phase, FetchPhase::Complete));
    let snapshot = session.into_snapshot().unwrap();
    assert_eq!(snapshot.body, b"abcd".to_vec());
    assert!(snapshot.truncated);
    assert_eq!(snapshot.status_code, 200);
}

#[test]
fn stream_end_before_deadline_is_not_truncated() {
    let mut session = FetchSession::start(false);
    session.on_headers(404);
    assert!(session.on_frame(b"oops".to_vec(), 3));
    session.on_stream_end();
    let snapshot = session.into_snapshot().unwrap();
    assert_eq!(snapshot.status_code, 404);
    assert_eq!(snapshot.body, b"oops".to_vec());
    assert!(!snapshot.truncated);
}

#[test]
fn scenario_c_secure_destination_upgrades_before_handshake() {
    let session = FetchSession::start(true);
    assert!(matches!(session.phase, FetchPhase::AwaitingTls));

    let mut ok_session = FetchSession::start(true);
    ok_session.on_tls_result(true);
    assert!(matches!(ok_session.phase, FetchPhase::AwaitingHeaders));
    ok_session.on_headers(301);
    assert!(ok_session.snapshot.as_ref().is_some_and(|s| s.status_code == 301));
}

#[test]
fn scenario_c_failed_upgrade_yields_no_snapshot() {
    let mut session = FetchSession::start(true);
    session.on_tls_result(false);
    assert!(matches!(session.phase, FetchPhase::Failed));
    assert!(session.into_snapshot().is_none());
}

#[test]
fn io_error_discards_the_partial_snapshot() {
    let mut session = FetchSession::start(false);
    session.on_headers(200);
    assert!(session.on_frame(b"partial".to_vec(), 1));
    session.on_io_error();
    assert!(session.into_snapshot().is_none());
}
