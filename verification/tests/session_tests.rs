use replay_agent::errors::UploadError;
use replay_agent::session::ACCESS_TTL_SECS;
use replay_agent::session::REFRESH_TTL_SECS;
use replay_agent::session::RefreshOutcome;
use replay_agent::session::SessionPlan;
use replay_agent::session::apply_refresh_response;
use replay_agent::session::cookie_value;
use replay_agent::session::ensure_valid_plan;
use replay_agent::session::last_cookie_value;
use replay_agent::session::needs_refresh;
use replay_agent::session::refresh_error;
use replay_agent::session::stored_session_after;
use replay_agent::time::parse_rfc3339_secs;
use replay_agent::types::AuthSession;
use replay_agent::types::User;

fn sample_user() -> User {
    User {
        id: String::from("u1"),
        username: String::from("player-one"),
        email: String::from("one@example.com"),
        email_verified: true,
        avatar_url: None,
    }
}

fn session_expiring_at(expiry: &str) -> AuthSession {
    AuthSession {
        access_token: String::from("old-access"),
        refresh_token: String::from("old-refresh"),
        access_token_expiry: String::from(expiry),
        refresh_token_expiry: String::from("2030-01-01T00:00:00+00:00"),
        user: sample_user(),
        device_id: None,
    }
}

fn rfc3339_at(secs: i64) -> String {
    chrono::DateTime::from_timestamp(secs, 0).unwrap().to_rfc3339()
}

#[test]
fn expiry_two_minutes_out_triggers_refresh() {
    let now = 1_700_000_000;
    let session = session_expiring_at(&rfc3339_at(now + 120));
    assert!(matches!(ensure_valid_plan(&session, now), Ok(SessionPlan::Refresh)));
}

#[test]
fn expiry_ten_minutes_out_needs_no_refresh() {
    let now = 1_700_000_000;
    let session = session_expiring_at(&rfc3339_at(now + 600));
    assert!(matches!(ensure_valid_plan(&session, now), Ok(SessionPlan::UseAsIs)));
}

#[test]
fn refresh_buffer_boundary_is_at_or_before() {
    let now = 1_700_000_000;
    assert!(needs_refresh(now + 300, now));
    assert!(!needs_refresh(now + 301, now));
    assert!(needs_refresh(now - 10, now));
}

#[test]
fn unparseable_expiry_is_the_invalid_expiry_condition() {
    let session = session_expiring_at("not-a-date");
    match ensure_valid_plan(&session, 1_700_000_000) {
        Err(UploadError::InvalidExpiry) => {}
        other => panic!("expected the invalid-expiry condition, got {:?}", other),
    }
}

#[test]
fn refresh_401_clears_session_with_the_revocation_kind() {
    let session = session_expiring_at("2020-01-01T00:00:00+00:00");
    let outcome = apply_refresh_response(&session, 401, &vec![], 1_700_000_000);
    assert!(matches!(outcome, RefreshOutcome::Revoked));
    // the stored session is cleared entirely
    assert!(stored_session_after(&outcome, &session).is_none());
    // and the surfaced error is the distinct revocation kind
    match refresh_error(&outcome) {
        Some(UploadError::AuthRevoked) => {}
        other => panic!("expected the revocation kind, got {:?}", other),
    }
    assert!(!matches!(refresh_error(&outcome), Some(UploadError::Network(_))));
}

#[test]
fn refresh_other_failure_is_generic_and_keeps_session() {
    let session = session_expiring_at("2020-01-01T00:00:00+00:00");
    let outcome = apply_refresh_response(&session, 503, &vec![], 1_700_000_000);
    assert!(matches!(outcome, RefreshOutcome::Failed(503)));
    let kept = stored_session_after(&outcome, &session).unwrap();
    assert_eq!(kept.access_token, "old-access");
    match refresh_error(&outcome) {
        Some(UploadError::RefreshFailed(503)) => {}
        other => panic!("expected the generic refresh failure, got {:?}", other),
    }
}

#[test]
fn refresh_success_takes_tokens_from_cookies() {
    let now = 1_700_000_000;
    let session = session_expiring_at("2020-01-01T00:00:00+00:00");
    let cookies = vec![
        String::from("access_token=new-access; Path=/; HttpOnly"),
        String::from("refresh_token=new-refresh; Path=/; HttpOnly"),
    ];
    let outcome = apply_refresh_response(&session, 200, &cookies, now);
    let refreshed = match outcome {
        RefreshOutcome::Refreshed(s) => s,
        other => panic!("expected a refreshed session, got {:?}", other),
    };
    assert_eq!(refreshed.access_token, "new-access");
    assert_eq!(refreshed.refresh_token, "new-refresh");
    // the new expiries are fixed lifetimes from now
    assert_eq!(parse_rfc3339_secs(&refreshed.access_token_expiry), Some(now + ACCESS_TTL_SECS));
    assert_eq!(parse_rfc3339_secs(&refreshed.refresh_token_expiry), Some(now + REFRESH_TTL_SECS));
    assert_eq!(refreshed.user.username, "player-one");
}

#[test]
fn absent_cookie_retains_previous_token() {
    let now = 1_700_000_000;
    let session = session_expiring_at("2020-01-01T00:00:00+00:00");
    let cookies = vec![String::from("access_token=new-access")];
    let outcome = apply_refresh_response(&session, 204, &cookies, now);
    let refreshed = match outcome {
        RefreshOutcome::Refreshed(s) => s,
        other => panic!("expected a refreshed session, got {:?}", other),
    };
    assert_eq!(refreshed.access_token, "new-access");
    assert_eq!(refreshed.refresh_token, "old-refresh");
}

#[test]
fn cookie_value_stops_at_first_semicolon() {
    assert_eq!(
        cookie_value("access_token=abc;def; Path=/", "access_token=").as_deref(),
        Some("abc")
    );
    assert_eq!(cookie_value("access_token=xyz", "access_token=").as_deref(), Some("xyz"));
    assert_eq!(cookie_value("access_token=", "access_token=").as_deref(), Some(""));
    assert_eq!(cookie_value("session=abc", "access_token="), None);
}

#[test]
fn later_cookie_overwrites_earlier() {
    let cookies = vec![
        String::from("access_token=first; Path=/"),
        String::from("theme=dark"),
        String::from("access_token=second; Path=/"),
    ];
    assert_eq!(last_cookie_value(&cookies, "access_token=").as_deref(), Some("second"));
    assert_eq!(last_cookie_value(&cookies, "refresh_token="), None);
}

#[test]
fn rfc3339_parsing_matches_chrono() {
    // a fixed instant with a non-UTC offset
    assert_eq!(parse_rfc3339_secs("1996-12-19T16:39:57-08:00"), Some(851_042_397));
    assert_eq!(parse_rfc3339_secs("1970-01-01T00:00:00+00:00"), Some(0));
    assert_eq!(parse_rfc3339_secs("nonsense"), None);
}
