use inference_core::wire::{
    error_response, msgpack_encode_failure, RequestHeaders, Wire, WireResponse,
};

fn headers(accept: Option<&str>, content_type: Option<&str>) -> RequestHeaders {
    RequestHeaders {
        accept: accept.map(|s| s.to_string()),
        content_type: content_type.map(|s| s.to_string()),
    }
}

#[test]
fn accept_msgpack_is_detected() {
    let h = headers(Some("application/msgpack"), None);
    assert_eq!(Wire::from_accept(&h), Wire::MsgPack);
}

#[test]
fn accept_anything_else_defaults_to_json() {
    let h = headers(Some("text/html"), None);
    assert_eq!(Wire::from_accept(&h), Wire::Json);
    let h2 = headers(None, None);
    assert_eq!(Wire::from_accept(&h2), Wire::Json);
}

#[test]
fn accept_list_mentioning_msgpack_selects_msgpack() {
    let h = headers(Some("application/json;q=0.5, application/msgpack"), None);
    assert_eq!(Wire::from_accept(&h), Wire::MsgPack);
}

#[test]
fn accept_match_is_case_sensitive_and_needs_whole_name() {
    assert_eq!(Wire::from_accept(&headers(Some("application/MSGPACK"), None)), Wire::Json);
    assert_eq!(Wire::from_accept(&headers(Some("application/msgpac"), None)), Wire::Json);
    assert_eq!(Wire::from_accept(&headers(Some(""), None)), Wire::Json);
}

#[test]
fn ok_response_has_status_200() {
    let r = WireResponse::ok(Wire::MsgPack, 7u32);
    assert_eq!(r.status, 200);
    assert_eq!(r.wire, Wire::MsgPack);
    assert_eq!(r.body, 7);
    let r2 = WireResponse::with_status(Wire::Json, 418, "x");
    assert_eq!(r2.status, 418);
    assert_eq!(r2.body, "x");
}

#[test]
fn error_response_carries_code_and_reason() {
    let r = error_response(Wire::Json, 400, "bad_audio", "why".to_string());
    assert_eq!(r.status, 400);
    assert_eq!(r.wire, Wire::Json);
    assert_eq!(r.body.error, "bad_audio");
    assert_eq!(r.body.reason, "why");
}

#[test]
fn msgpack_failure_falls_back_to_json_500() {
    let r = msgpack_encode_failure("boom");
    assert_eq!(r.wire, Wire::Json);
    assert_eq!(r.status, 500);
    assert_eq!(r.body.error, "internal");
    assert_eq!(r.body.reason, "msgpack encode failed: boom");
}
