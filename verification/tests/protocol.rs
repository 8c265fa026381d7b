use freebox::authz::{
    authorize_request_body, authorize_url, decode_authorize, decode_track, poll_decision,
    poll_outcome, track_url, PollEvent, PollOutcome,
};
use freebox::errors::AuthorizationError;
use freebox::hex::hex_encode;
use freebox::session::{
    decode_login, decode_session, login_url, session_password, session_request_body, session_url,
};

#[test]
fn password_matches_known_hmac_sha1_vector() {
    // RFC 2202 test case 2, reinterpreted through lower-case hex encoding.
    let pw = session_password("Jefe", "what do ya want for nothing?");
    assert_eq!(pw, "effcdf6ae5eb2fa2d27416d5f184df9c259a7c79");
}

#[test]
fn password_matches_quick_brown_fox_vector() {
    let pw = session_password("key", "The quick brown fox jumps over the lazy dog");
    assert_eq!(pw, "de7c9b85b8b78aa6bc8a7a36f70a90701c9db4d9");
}

#[test]
fn password_of_empty_inputs_is_the_empty_hmac() {
    // HMAC-SHA1 with empty key and message.
    let pw = session_password("", "");
    assert_eq!(pw, "fbdb1d1b18aa6c08324b7d64b71fb76370690e1d");
}

#[test]
fn hex_encoding_is_two_lowercase_digits_per_byte() {
    let chars = hex_encode(&[0x00, 0xff, 0x1a]);
    let s: String = chars.iter().collect();
    assert_eq!(s, "00ff1a");
    assert!(hex_encode(&[]).is_empty());
}

#[test]
fn session_urls_hang_off_the_base_url() {
    let base = "https://example.test:443/api/v8/";
    assert_eq!(login_url(base), "https://example.test:443/api/v8/login/");
    assert_eq!(session_url(base), "https://example.test:443/api/v8/login/session");
}

#[test]
fn authorize_urls_hang_off_the_base_url() {
    let base = "https://example.test:443/api/v8/";
    assert_eq!(authorize_url(base), "https://example.test:443/api/v8/login/authorize");
    assert_eq!(track_url(base, 42), "https://example.test:443/api/v8/login/authorize/42");
    assert_eq!(track_url(base, 0), "https://example.test:443/api/v8/login/authorize/0");
}

#[test]
fn authorize_body_presents_the_identity_three_times() {
    let body = authorize_request_body("metrics");
    assert_eq!(
        body,
        "{\"app_id\":\"metrics\",\"app_name\":\"metrics\",\"app_version\":\"1.0\",\"device_name\":\"metrics\"}"
    );
}

#[test]
fn session_body_carries_identity_and_password() {
    let body = session_request_body("metrics", "abc123");
    assert_eq!(body, "{\"app_id\":\"metrics\",\"password\":\"abc123\"}");
}

#[test]
fn decode_authorize_reads_token_and_track() {
    let body = "{\"success\":true,\"result\":{\"app_token\":\"tok-1\",\"track_id\":7}}";
    let a = decode_authorize(body).unwrap();
    assert_eq!(a.app_token, "tok-1");
    assert_eq!(a.track_id, 7);
}

#[test]
fn decode_authorize_rejects_missing_track() {
    let body = "{\"success\":true,\"result\":{\"app_token\":\"tok-1\"}}";
    assert_eq!(decode_authorize(body).unwrap_err(), AuthorizationError::MalformedBody);
}

#[test]
fn decode_authorize_rejects_wide_track_id() {
    let body = "{\"success\":true,\"result\":{\"app_token\":\"tok-1\",\"track_id\":256}}";
    assert_eq!(decode_authorize(body).unwrap_err(), AuthorizationError::MalformedBody);
}

#[test]
fn decode_track_reads_the_status() {
    let body = "{\"success\":true,\"result\":{\"status\":\"pending\"}}";
    assert_eq!(decode_track(body).unwrap(), "pending");
}

#[test]
fn decode_login_reads_flag_and_challenge() {
    let body = "{\"success\":true,\"result\":{\"logged_in\":false,\"challenge\":\"VzhbtpR4r8\"}}";
    let l = decode_login(body).unwrap();
    assert!(!l.logged_in);
    assert_eq!(l.challenge, "VzhbtpR4r8");
}

#[test]
fn decode_session_reads_the_token() {
    let body = "{\"success\":true,\"result\":{\"session_token\":\"sess-9\"}}";
    assert_eq!(decode_session(body).unwrap(), "sess-9");
}

#[test]
fn poll_ends_only_on_granted() {
    assert!(poll_decision("granted"));
    assert!(!poll_decision("pending"));
    assert!(!poll_decision("denied"));
    assert!(!poll_decision(""));
}

#[test]
fn poll_trace_ends_at_first_granted() {
    let events = vec![
        PollEvent::Status(String::from("pending")),
        PollEvent::Status(String::from("pending")),
        PollEvent::Status(String::from("granted")),
    ];
    assert_eq!(poll_outcome(&events), PollOutcome::Granted(2));
}

#[test]
fn poll_trace_does_not_end_on_pending() {
    let events = vec![
        PollEvent::Status(String::from("pending")),
        PollEvent::Status(String::from("pending")),
    ];
    assert_eq!(poll_outcome(&events), PollOutcome::Exhausted);
}

#[test]
fn poll_trace_stops_at_a_failed_step() {
    let events = vec![
        PollEvent::Status(String::from("pending")),
        PollEvent::TransportFailure,
        PollEvent::Status(String::from("granted")),
    ];
    assert_eq!(poll_outcome(&events), PollOutcome::Failed(1));
}
