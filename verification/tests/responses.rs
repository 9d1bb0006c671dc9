use solvalmon::handlers::error::{bad_request, internal_error, not_found, unauthorised};
use solvalmon::handlers::post::{post, Post};
use solvalmon::handlers::status::{respond, NodeReadings, Status};
use solvalmon::json::JsonObject;
use solvalmon::responder::ApiResponder;

#[test]
fn error_bodies() {
    assert_eq!(bad_request(), "bad request");
    assert_eq!(unauthorised(), "unauthorised");
    assert_eq!(not_found(), "not found");
    assert_eq!(internal_error(), "server error, check console");
}

#[test]
fn success_envelope_orders_keys() {
    let mut o = JsonObject::new();
    o.insert_number("a", 1);
    let r = ApiResponder::success(Some(o), "status".to_string());
    assert!(r.success);
    assert_eq!(r.body(), "{\"status\":{\"a\":1},\"success\":true}");
    let mut o = JsonObject::new();
    o.insert_str("z", "x");
    o.insert_bool("b", false);
    let r = ApiResponder::success(Some(o), "abc".to_string());
    assert_eq!(r.body(), "{\"abc\":{\"b\":false,\"z\":\"x\"},\"success\":true}");
    let r = ApiResponder::success(Some(JsonObject::new()), "e".to_string());
    assert_eq!(r.body(), "{\"e\":{},\"success\":true}");
}

#[test]
fn error_envelope() {
    let r = ApiResponder::error("boom \"x\"".to_string());
    assert!(!r.success);
    assert_eq!(r.field_name, "error");
    assert_eq!(r.body(), "{\"message\":\"boom \\\"x\\\"\",\"success\":false}");
}

#[test]
fn empty_success_envelope() {
    let r = ApiResponder::success_empty();
    assert_eq!(r.body(), "{\"success\":true}");
}

#[test]
fn payload_under_success_key_replaces_flag() {
    let mut o = JsonObject::new();
    o.insert_number("n", 1);
    let r = ApiResponder::new(false, Some("m".to_string()), Some(o), "success".to_string());
    assert_eq!(r.body(), "{\"message\":\"m\",\"success\":{\"n\":1}}");
    let mut o = JsonObject::new();
    o.insert_number("n", 2);
    let r = ApiResponder::new(true, Some("m".to_string()), Some(o), "message".to_string());
    assert_eq!(r.body(), "{\"message\":{\"n\":2},\"success\":true}");
}

#[test]
fn post_echoes_payload() {
    let r = post(&Post { payload: "hi \"there\"".to_string() });
    assert!(r.success);
    assert_eq!(r.field_name, "post");
    assert_eq!(r.inner.as_ref().map(|o| o.render()).as_deref(), Some("{\"payload\":\"hi \\\"there\\\"\"}"));
    assert_eq!(r.body(), "{\"post\":{\"payload\":\"hi \\\"there\\\"\"},\"success\":true}");
}

#[test]
fn status_json_fields_sorted() {
    let s = Status {
        hostname: "node-1".to_string(),
        slot: 42,
        identity: "Id1".to_string(),
        version: "2.1.0".to_string(),
        identity_balance: 7,
        genesis_hash: "G".to_string(),
        uptime_ms: 1000,
    };
    assert_eq!(
        s.to_json(),
        "{\"genesis_hash\":\"G\",\"hostname\":\"node-1\",\"identity\":\"Id1\",\"identity_balance\":7,\"slot\":42,\"uptime_ms\":1000,\"version\":\"2.1.0\"}"
    );
}

#[test]
fn status_placeholders() {
    let u = Status::unreachable_for("box".to_string());
    assert_eq!(u.identity, "(unreachable)");
    assert_eq!(u.hostname, "box");
    assert_eq!(u.slot, 0);
    let n = Status::not_running_for("box".to_string());
    assert_eq!(n.identity, "(not running)");
    assert_eq!(n.uptime_ms, 0);
    if let Some(u) = Status::unreachable() {
        assert_eq!(u.identity, "(unreachable)");
    }
}

#[test]
fn status_respond_complete_and_incomplete() {
    let full = NodeReadings {
        slot: Some(5),
        identity: Some("Id".to_string()),
        version: Some("v".to_string()),
        identity_balance: Some(3),
        genesis_hash: Some("g".to_string()),
    };
    let r = respond("h".to_string(), full, 9);
    assert_eq!(r.field_name, "status");
    assert_eq!(
        r.inner.as_ref().map(|o| o.render()).as_deref(),
        Some("{\"genesis_hash\":\"g\",\"hostname\":\"h\",\"identity\":\"Id\",\"identity_balance\":3,\"slot\":5,\"uptime_ms\":9,\"version\":\"v\"}")
    );
    let partial = NodeReadings {
        slot: Some(5),
        identity: None,
        version: Some("v".to_string()),
        identity_balance: Some(3),
        genesis_hash: Some("g".to_string()),
    };
    let r = respond("h".to_string(), partial, 9);
    assert_eq!(
        r.inner.as_ref().map(|o| o.render()).as_deref(),
        Some("{\"genesis_hash\":\"\",\"hostname\":\"h\",\"identity\":\"(unreachable)\",\"identity_balance\":0,\"slot\":0,\"uptime_ms\":0,\"version\":\"\"}")
    );
}

#[test]
fn string_escapes_in_json() {
    let s = Status::unreachable_for("a\"b\\c\n\t\r\u{8}\u{c}\u{1}\u{1f}\u{7f}é".to_string());
    let text = s.to_json();
    assert!(text.starts_with(
        "{\"genesis_hash\":\"\",\"hostname\":\"a\\\"b\\\\c\\n\\t\\r\\b\\f\\u0001\\u001f\u{7f}é\","
    ));
}
