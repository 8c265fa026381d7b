use freebox::config::{format_config, load_config, parse_config, stored_token, Configuration};
use freebox::endpoint::{
    derive_base_url, endpoint_from_document, parse_major_version, EndpointDescriptor,
};
use freebox::errors::{DiscoveryError, RequestError};
use freebox::executor::{decode_connection_status, decode_wifi_state};
use freebox::json::parse_doc_str;
use freebox::types::{ConnectionMedia, ConnectionState, ConnectionType};

#[test]
fn major_version_takes_the_component_before_the_first_dot() {
    assert_eq!(parse_major_version("8.0.1").unwrap(), 8);
    assert_eq!(parse_major_version("8.0").unwrap(), 8);
    assert_eq!(parse_major_version("12.5").unwrap(), 12);
}

#[test]
fn major_version_fails_without_a_delimiter() {
    assert!(parse_major_version("8").is_err());
    assert!(parse_major_version("").is_err());
    assert!(parse_major_version("a.b").is_err());
    assert!(parse_major_version(".5").is_err());
    assert!(parse_major_version("99999999999999999999.0").is_err());
}

#[test]
fn base_url_is_fixed_by_the_descriptor() {
    let d = EndpointDescriptor {
        api_domain: String::from("mafreebox.freebox.fr"),
        https_port: 443,
        api_base_path: String::from("/api/"),
        api_major_version: 8,
    };
    let once = derive_base_url(&d);
    let twice = derive_base_url(&d);
    assert_eq!(once, "https://mafreebox.freebox.fr:443/api/v8/");
    assert_eq!(once, twice);
}

#[test]
fn discovery_reads_the_self_description() {
    let body = "{\"uid\":\"23b86ec8\",\"device_name\":\"Freebox Server\",\
                \"api_version\":\"8.0\",\"api_base_url\":\"/api/\",\"device_type\":\"FreeboxServer1,1\",\
                \"api_domain\":\"example.fbxos.fr\",\"https_available\":true,\"https_port\":3129}";
    let d = endpoint_from_document(body).unwrap();
    assert_eq!(d.api_domain, "example.fbxos.fr");
    assert_eq!(d.https_port, 3129);
    assert_eq!(d.api_base_path, "/api/");
    assert_eq!(d.api_major_version, 8);
    assert_eq!(derive_base_url(&d), "https://example.fbxos.fr:3129/api/v8/");
}

#[test]
fn discovery_rejects_a_malformed_body() {
    assert_eq!(endpoint_from_document("not a document").unwrap_err(), DiscoveryError::MalformedBody);
    assert_eq!(endpoint_from_document("{}").unwrap_err(), DiscoveryError::MalformedBody);
}

#[test]
fn discovery_rejects_an_undelimited_version() {
    let body = "{\"uid\":\"u\",\"device_name\":\"n\",\"api_version\":\"8\",\
                \"api_base_url\":\"/api/\",\"device_type\":\"t\",\"api_domain\":\"d\",\
                \"https_available\":true,\"https_port\":443}";
    assert_eq!(endpoint_from_document(body).unwrap_err(), DiscoveryError::InvalidVersion);
}

#[test]
fn config_round_trip_keeps_the_token() {
    let c = Configuration {
        app_id: String::from("metrics"),
        app_token: Some(String::from("secret-token")),
    };
    let text = format_config(&c);
    assert_eq!(text, "{\"app_id\":\"metrics\",\"app_token\":\"secret-token\"}");
    let back = parse_config(&text).unwrap();
    assert_eq!(back.app_id, "metrics");
    assert_eq!(back.app_token.as_deref(), Some("secret-token"));
}

#[test]
fn config_round_trip_keeps_awkward_characters() {
    let c = Configuration {
        app_id: String::from("a\"b\\c"),
        app_token: Some(String::from("t\\\"x")),
    };
    let text = format_config(&c);
    let back = parse_config(&text).unwrap();
    assert_eq!(back.app_id, "a\"b\\c");
    assert_eq!(back.app_token.as_deref(), Some("t\\\"x"));
}

#[test]
fn config_without_token_round_trips_to_no_token() {
    let c = Configuration { app_id: String::from("metrics"), app_token: None };
    let text = format_config(&c);
    assert_eq!(text, "{\"app_id\":\"metrics\"}");
    let back = parse_config(&text).unwrap();
    assert_eq!(back.app_id, "metrics");
    assert!(back.app_token.is_none());
}

#[test]
fn missing_or_unreadable_store_yields_no_token() {
    assert!(load_config(None).is_none());
    assert!(stored_token(None).is_none());
    assert!(parse_config("{{{").is_none());
    assert!(stored_token(Some("{\"app_id\":\"metrics\"}")).is_none());
    assert_eq!(
        stored_token(Some("{\"app_id\":\"m\",\"app_token\":\"tk\"}")).as_deref(),
        Some("tk")
    );
}

#[test]
fn wifi_envelope_decodes_to_the_result() {
    let body = "{\"success\":true,\"result\":{\"enabled\":true,\"mac_filter_state\":\"disabled\"}}";
    let w = decode_wifi_state(body).unwrap();
    assert!(w.enabled);
    assert_eq!(w.mac_filter_state, "disabled");
}

#[test]
fn wifi_envelope_tolerates_field_order_and_whitespace() {
    let body = " {\n \"result\" : {\"mac_filter_state\":\"on\", \"enabled\": false},\n \"success\": true } ";
    let w = decode_wifi_state(body).unwrap();
    assert!(!w.enabled);
    assert_eq!(w.mac_filter_state, "on");
}

#[test]
fn malformed_wifi_envelope_is_an_error_not_a_default() {
    assert_eq!(decode_wifi_state("garbage").unwrap_err(), RequestError::MalformedBody);
    assert_eq!(decode_wifi_state("{\"success\":true}").unwrap_err(), RequestError::MalformedBody);
    let wrong_shape = "{\"success\":true,\"result\":{\"enabled\":\"yes\",\"mac_filter_state\":\"off\"}}";
    assert_eq!(decode_wifi_state(wrong_shape).unwrap_err(), RequestError::MalformedBody);
}

#[test]
fn connection_envelope_decodes_every_field() {
    let body = "{\"success\":true,\"result\":{\"type\":\"ethernet\",\"media\":\"ftth\",\
                \"state\":\"up\",\"rate_down\":12000,\"rate_up\":3400,\"bytes_down\":123456789012,\
                \"bytes_up\":987654321,\"bandwidth_down\":1000000000,\"bandwidth_up\":600000000,\
                \"ipv4\":\"203.0.113.7\",\"ipv6\":\"2001:db8::7\"}}";
    let c = decode_connection_status(body).unwrap();
    assert_eq!(c.ty, ConnectionType::Ethernet);
    assert_eq!(c.media, ConnectionMedia::Ftth);
    assert_eq!(c.state, ConnectionState::Up);
    assert_eq!(c.rate_down, 12000);
    assert_eq!(c.rate_up, 3400);
    assert_eq!(c.bytes_down, 123456789012);
    assert_eq!(c.bytes_up, 987654321);
    assert_eq!(c.bandwidth_down, 1000000000);
    assert_eq!(c.bandwidth_up, 600000000);
    assert_eq!(c.ipv4, "203.0.113.7");
    assert_eq!(c.ipv6, "2001:db8::7");
}

#[test]
fn connection_envelope_rejects_an_unknown_state() {
    let body = "{\"success\":true,\"result\":{\"type\":\"ethernet\",\"media\":\"ftth\",\
                \"state\":\"sideways\",\"rate_down\":1,\"rate_up\":1,\"bytes_down\":1,\
                \"bytes_up\":1,\"bandwidth_down\":1,\"bandwidth_up\":1,\
                \"ipv4\":\"a\",\"ipv6\":\"b\"}}";
    assert_eq!(decode_connection_status(body).unwrap_err(), RequestError::MalformedBody);
}

#[test]
fn parser_reads_numbers_escapes_and_null() {
    let doc = parse_doc_str("{\"a\": 18446744073709551615, \"b\": \"x\\n\\\"y\\\\z\", \"c\": null}");
    assert!(doc.is_some());
    let doc = parse_doc_str("{\"a\": 18446744073709551616}");
    assert!(doc.is_none());
    assert!(parse_doc_str("{\"a\":1} trailing").is_none());
    assert!(parse_doc_str("{\"a\":-1}").is_none());
    assert!(parse_doc_str("").is_none());
}
