//! The whole first-run flow, driven with canned router replies: no stored
//! token, discovery, authorization granted on the third poll, the token
//! persisted, then an authenticated Wi-Fi read.

use freebox::authz::{
    authorize_request_body, authorize_url, decode_authorize, decode_track, poll_outcome,
    track_url, PollEvent, PollOutcome,
};
use freebox::clock::{ts_nano, ts_nano_from};
use freebox::config::{format_config, parse_config, stored_token, Configuration};
use freebox::endpoint::{derive_base_url, endpoint_from_document};
use freebox::executor::{
    auth_header_name, connection_url, decode_wifi_state, format_update_wifi, lan_browser_url,
    wifi_config_url, xdsl_url,
};
use freebox::session::{decode_login, decode_session, session_password, session_request_body};
use freebox::types::UpdateWifiState;

#[test]
fn first_run_flow_reaches_the_wifi_state() {
    // No persisted configuration yet: the store yields no token.
    assert!(stored_token(None).is_none());

    // Discovery.
    let bootstrap_body = "{\"uid\":\"23b86ec8\",\"device_name\":\"Freebox Server\",\
        \"api_version\":\"8.0\",\"api_base_url\":\"/api/\",\"device_type\":\"FreeboxServer1,1\",\
        \"api_domain\":\"example.fbxos.fr\",\"https_available\":true,\"https_port\":443}";
    let descriptor = endpoint_from_document(bootstrap_body).unwrap();
    let base = derive_base_url(&descriptor);
    assert_eq!(base, "https://example.fbxos.fr:443/api/v8/");

    // Authorization is invoked.
    assert_eq!(authorize_url(&base), "https://example.fbxos.fr:443/api/v8/login/authorize");
    let _register = authorize_request_body("metrics");
    let granted_reply =
        "{\"success\":true,\"result\":{\"app_token\":\"tok-long-lived\",\"track_id\":33}}";
    let auth = decode_authorize(granted_reply).unwrap();
    assert_eq!(track_url(&base, auth.track_id), "https://example.fbxos.fr:443/api/v8/login/authorize/33");

    // Poll: pending, pending, granted.
    let pending = "{\"success\":true,\"result\":{\"status\":\"pending\"}}";
    let granted = "{\"success\":true,\"result\":{\"status\":\"granted\"}}";
    let events = vec![
        PollEvent::Status(decode_track(pending).unwrap()),
        PollEvent::Status(decode_track(pending).unwrap()),
        PollEvent::Status(decode_track(granted).unwrap()),
    ];
    assert_eq!(poll_outcome(&events), PollOutcome::Granted(2));

    // The token is persisted and read back.
    let conf = Configuration {
        app_id: String::from("metrics"),
        app_token: Some(auth.app_token.clone()),
    };
    let stored = format_config(&conf);
    assert_eq!(stored_token(Some(&stored)).as_deref(), Some("tok-long-lived"));

    // A later authenticated call negotiates a fresh session.
    let login_reply =
        "{\"success\":true,\"result\":{\"logged_in\":false,\"challenge\":\"VzhbtpR4r8CLaJle\"}}";
    let login = decode_login(login_reply).unwrap();
    let password = session_password(&auth.app_token, &login.challenge);
    let _open_session = session_request_body("metrics", &password);
    let session_reply = "{\"success\":true,\"result\":{\"session_token\":\"sess-fresh\"}}";
    let session = decode_session(session_reply).unwrap();
    assert_eq!(session, "sess-fresh");
    assert_eq!(auth_header_name(), "X-Fbx-App-Auth");

    // The Wi-Fi state comes back decoded.
    let wifi_reply =
        "{\"success\":true,\"result\":{\"enabled\":true,\"mac_filter_state\":\"disabled\"}}";
    let wifi = decode_wifi_state(wifi_reply).unwrap();
    assert!(wifi.enabled);
    assert_eq!(wifi.mac_filter_state, "disabled");
}

#[test]
fn fresh_sessions_use_the_same_password_for_the_same_challenge() {
    let p1 = session_password("tok", "challenge-1");
    let p2 = session_password("tok", "challenge-1");
    assert_eq!(p1, p2);
    let p3 = session_password("tok", "challenge-2");
    assert_ne!(p1, p3);
}

#[test]
fn resource_urls_hang_off_the_base_url() {
    let base = "https://example.fbxos.fr:443/api/v8/";
    assert_eq!(connection_url(base), "https://example.fbxos.fr:443/api/v8/connection/");
    assert_eq!(xdsl_url(base), "https://example.fbxos.fr:443/api/v8/connection/xdsl/");
    assert_eq!(
        lan_browser_url(base, "pub"),
        "https://example.fbxos.fr:443/api/v8/lan/browser/pub/"
    );
    assert_eq!(wifi_config_url(base), "https://example.fbxos.fr:443/api/v8/wifi/config//");
}

#[test]
fn wifi_update_bodies_carry_the_flag() {
    assert_eq!(format_update_wifi(UpdateWifiState { enabled: true }), "{\"enabled\":true}");
    assert_eq!(format_update_wifi(UpdateWifiState { enabled: false }), "{\"enabled\":false}");
}

#[test]
fn timestamps_are_whole_milliseconds_in_nanoseconds() {
    assert_eq!(ts_nano_from(1, 500), 1_500_000_000);
    assert_eq!(ts_nano_from(0, 0), 0);
    let now = ts_nano().unwrap();
    assert_eq!(now % 1_000_000, 0);
    assert!(now > 0);
}

#[test]
fn config_parse_accepts_a_null_token_as_absent() {
    let c = parse_config("{\"app_id\":\"m\",\"app_token\":null}").unwrap();
    assert_eq!(c.app_id, "m");
    assert!(c.app_token.is_none());
}
