use device_bridges::error::{classify_io_failure, classify_transport_failure, BridgeError};
use device_bridges::govee::{discover, GoveeSender};
use device_bridges::json::Payload;
use device_bridges::roku::{classify_status, post_body_plan, status_is_success};
use device_bridges::roomsense::scan;
use device_bridges::text::{trim_str, u16_to_decimal};

fn string_payload(s: &str) -> Payload {
    Payload::Text(s.to_string())
}

#[test]
fn prepare_string_payload_sends_bytes_verbatim() {
    let sender = GoveeSender;
    let request = sender
        .prepare("192.0.2.1", None, &string_payload("hello device"))
        .unwrap();
    assert_eq!(request.message, "hello device");
    assert_eq!(request.address, "192.0.2.1:4003");
}

#[test]
fn prepare_structured_payload_serializes_to_json() {
    let sender = GoveeSender;
    let mut fields = serde_json::Map::new();
    fields.insert(
        "cmd".to_string(),
        serde_json::Value::String("on".to_string()),
    );
    let body = Payload::Structured(serde_json::Value::Object(fields));
    let request = sender.prepare("192.0.2.1", None, &body).unwrap();
    assert_eq!(request.address, "192.0.2.1:4003");
    assert_eq!(request.message, "{\"cmd\":\"on\"}");
}

#[test]
fn prepare_empty_host_is_invalid() {
    let sender = GoveeSender;
    let result = sender.prepare("", None, &string_payload("x"));
    match result {
        Err(BridgeError::Invalid(message)) => assert_eq!(message, "Missing host"),
        other => panic!("expected Invalid, got {:?}", other),
    }
}

#[test]
fn prepare_whitespace_host_is_invalid() {
    let sender = GoveeSender;
    let result = sender.prepare(" \t\r\n \u{3000}", Some(4003), &string_payload("x"));
    match result {
        Err(BridgeError::Invalid(message)) => assert_eq!(message, "Missing host"),
        other => panic!("expected Invalid, got {:?}", other),
    }
}

#[test]
fn prepare_trims_host() {
    let sender = GoveeSender;
    let request = sender
        .prepare("  192.0.2.7\n", None, &string_payload("x"))
        .unwrap();
    assert_eq!(request.address, "192.0.2.7:4003");
}

#[test]
fn prepare_uses_given_port() {
    let sender = GoveeSender;
    let request = sender
        .prepare("device.local", Some(1234), &string_payload("x"))
        .unwrap();
    assert_eq!(request.address, "device.local:1234");
    let request = sender
        .prepare("device.local", Some(0), &string_payload("x"))
        .unwrap();
    assert_eq!(request.address, "device.local:0");
    let request = sender
        .prepare("device.local", Some(65535), &string_payload("x"))
        .unwrap();
    assert_eq!(request.address, "device.local:65535");
}

#[test]
fn discover_is_always_empty() {
    assert!(discover(None).unwrap().is_empty());
    assert!(discover(Some(0)).unwrap().is_empty());
    assert!(discover(Some(30_000)).unwrap().is_empty());
}

#[test]
fn scan_is_always_unsupported() {
    assert!(matches!(scan(None), Err(BridgeError::Unsupported)));
    assert!(matches!(scan(Some(0)), Err(BridgeError::Unsupported)));
    assert!(matches!(scan(Some(30_000)), Err(BridgeError::Unsupported)));
}

#[test]
fn success_statuses_are_2xx_and_3xx() {
    assert!(status_is_success(200));
    assert!(status_is_success(204));
    assert!(status_is_success(301));
    assert!(status_is_success(399));
    assert!(!status_is_success(199));
    assert!(!status_is_success(101));
    assert!(!status_is_success(400));
    assert!(!status_is_success(404));
    assert!(!status_is_success(500));
    assert!(!status_is_success(599));
}

#[test]
fn non_success_status_yields_network_error() {
    for status in [100u16, 199, 400, 404, 500, 599] {
        let result = classify_status(status, format!("HTTP status {status}"));
        match result {
            Err(BridgeError::Network(message)) => {
                assert_eq!(message, format!("HTTP status {status}"));
            }
            other => panic!("expected Network, got {:?}", other),
        }
    }
    assert!(classify_status(200, "unused".to_string()).is_ok());
}

#[test]
fn server_error_on_get_yields_network_not_body() {
    let detail = "HTTP status 500 for url (http://device.local/query)".to_string();
    let result = classify_status(500, detail.clone());
    match result {
        Err(BridgeError::Network(message)) => assert_eq!(message, detail),
        other => panic!("expected Network, got {:?}", other),
    }
}

#[test]
fn post_body_plan_attaches_only_non_empty_bodies() {
    assert!(post_body_plan(None).is_none());
    assert!(post_body_plan(Some("")).is_none());
    assert_eq!(post_body_plan(Some("keypress")), Some("keypress".to_string()));
}

#[test]
fn transport_failures_are_classified() {
    match classify_transport_failure(true, false, "ignored".to_string()) {
        BridgeError::Network(message) => assert_eq!(message, "Request timed out"),
        other => panic!("expected Network, got {:?}", other),
    }
    match classify_transport_failure(false, true, "bad utf-8".to_string()) {
        BridgeError::Network(message) => {
            assert_eq!(message, "Failed to decode response: bad utf-8");
        }
        other => panic!("expected Network, got {:?}", other),
    }
    match classify_transport_failure(false, false, "connection refused".to_string()) {
        BridgeError::Network(message) => assert_eq!(message, "connection refused"),
        other => panic!("expected Network, got {:?}", other),
    }
}

#[test]
fn io_failures_are_classified() {
    match classify_io_failure("address in use".to_string()) {
        BridgeError::Io(message) => assert_eq!(message, "address in use"),
        other => panic!("expected Io, got {:?}", other),
    }
}

#[test]
fn error_messages_carry_their_category() {
    assert_eq!(
        BridgeError::Invalid("Missing host".to_string()).message(),
        "Invalid request: Missing host"
    );
    assert_eq!(
        BridgeError::Network("Request timed out".to_string()).message(),
        "Network error: Request timed out"
    );
    assert_eq!(
        BridgeError::Io("bind failed".to_string()).message(),
        "IO error: bind failed"
    );
    assert_eq!(
        BridgeError::Unsupported.message(),
        "Unsupported on this platform"
    );
}

#[test]
fn trim_str_removes_edge_whitespace() {
    assert_eq!(trim_str(""), "");
    assert_eq!(trim_str("   "), "");
    assert_eq!(trim_str("host"), "host");
    assert_eq!(trim_str("  a b\t"), "a b");
    assert_eq!(trim_str("\u{3000}x\u{2009}"), "x");
    assert_eq!(trim_str("host"), "host".trim());
    assert_eq!(trim_str(" \u{85}\u{a0}y z\u{200a} "), " \u{85}\u{a0}y z\u{200a} ".trim());
}

#[test]
fn u16_to_decimal_matches_display() {
    assert_eq!(u16_to_decimal(0), "0");
    assert_eq!(u16_to_decimal(7), "7");
    assert_eq!(u16_to_decimal(10), "10");
    assert_eq!(u16_to_decimal(4003), "4003");
    assert_eq!(u16_to_decimal(65535), "65535");
    for n in [1u16, 99, 100, 1000, 12345] {
        assert_eq!(u16_to_decimal(n), n.to_string());
    }
}

#[test]
fn client_config_is_fixed() {
    let config = device_bridges::roku::client_config();
    assert_eq!(config.timeout_secs, 6);
    assert!(config.accept_invalid_certs);
}
