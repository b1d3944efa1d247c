//! Choice of the response encoding (JSON or MessagePack) from the `Accept`
//! header, and the shape of every response the sidecar sends.

use vstd::prelude::*;
use crate::text::{contains_seq, contains_str, lemma_contains_window};

verus! {

/// HTTP 200.
pub const STATUS_OK: u16 = 200;
/// HTTP 400.
pub const STATUS_BAD_REQUEST: u16 = 400;
/// HTTP 413.
pub const STATUS_PAYLOAD_TOO_LARGE: u16 = 413;
/// HTTP 500.
pub const STATUS_INTERNAL_SERVER_ERROR: u16 = 500;
/// HTTP 503.
pub const STATUS_SERVICE_UNAVAILABLE: u16 = 503;

/// The encoding of a response body.
#[derive(Debug, Clone, Copy, PartialEq, Eq, Structural)]
pub enum Wire {
    Json,
    MsgPack,
}

/// The request headers that the sidecar reads, each present only where the
/// request carries it as visible ASCII text.
#[derive(Debug, Clone)]
pub struct RequestHeaders {
    pub accept: Option<String>,
    pub content_type: Option<String>,
}

/// The characters of an optional string.
pub open spec fn opt_chars(o: Option<String>) -> Option<Seq<char>> {
    match o {
        Some(s) => Some(s@),
        None => None,
    }
}

/// The encoding asked for by an `Accept` value: MessagePack exactly when the
/// value is present and mentions `application/msgpack`, JSON otherwise.
pub open spec fn wire_for(accept: Option<Seq<char>>) -> Wire {
    match accept {
        Some(a) => if contains_seq(a, "application/msgpack"@) {
            Wire::MsgPack
        } else {
            Wire::Json
        },
        None => Wire::Json,
    }
}

impl Wire {
    /// The encoding that the request's `Accept` header asks for.
    pub fn from_accept(headers: &RequestHeaders) -> (w: Wire)
        ensures
            w == wire_for(opt_chars(headers.accept)),
            (w == Wire::MsgPack) <==> (headers.accept is Some && exists|i: int|
                0 <= i && i + "application/msgpack"@.len() <= headers.accept->0@.len()
                    && #[trigger] headers.accept->0@.subrange(i, i + "application/msgpack"@.len())
                    == "application/msgpack"@),
    {
        proof {
            if headers.accept is Some {
                lemma_contains_window(headers.accept->0@, "application/msgpack"@);
            }
        }
        match &headers.accept {
            Some(a) => if contains_str(a.as_str(), "application/msgpack") {
                Wire::MsgPack
            } else {
                Wire::Json
            },
            None => Wire::Json,
        }
    }
}

/// A response: its encoding, HTTP status and body.
pub struct WireResponse<T> {
    pub wire: Wire,
    pub status: u16,
    pub body: T,
}

impl<T> WireResponse<T> {
    /// A 200 response.
    pub fn ok(wire: Wire, body: T) -> (r: Self)
        ensures
            r.wire == wire,
            r.status == STATUS_OK,
            r.body == body,
    {
        WireResponse { wire, status: STATUS_OK, body }
    }

    /// A response with the given status.
    pub fn with_status(wire: Wire, status: u16, body: T) -> (r: Self)
        ensures
            r.wire == wire,
            r.status == status,
            r.body == body,
    {
        WireResponse { wire, status, body }
    }
}

/// The body of every error response: a stable code and a human-readable
/// reason.
#[derive(Debug, Clone)]
pub struct ErrorBody {
    pub error: &'static str,
    pub reason: String,
}

/// An error response as values.
pub struct ErrorReply {
    pub wire: Wire,
    pub status: u16,
    pub error: Seq<char>,
    pub reason: Seq<char>,
}

/// An error response taken as values.
pub open spec fn error_reply(r: WireResponse<ErrorBody>) -> ErrorReply {
    ErrorReply { wire: r.wire, status: r.status, error: r.body.error@, reason: r.body.reason@ }
}

/// An error response with the given encoding, status, code and reason.
pub fn error_response(wire: Wire, status: u16, error: &'static str, reason: String) -> (r:
    WireResponse<ErrorBody>)
    ensures
        error_reply(r) == (ErrorReply { wire, status, error: error@, reason: reason@ }),
{
    WireResponse::with_status(wire, status, ErrorBody { error, reason })
}

/// What is answered when the body could not be encoded as MessagePack: a
/// JSON `500` with code `internal` and the encoder's message.
pub fn msgpack_encode_failure(message: &str) -> (r: WireResponse<ErrorBody>)
    ensures
        error_reply(r) == (ErrorReply {
            wire: Wire::Json,
            status: STATUS_INTERNAL_SERVER_ERROR,
            error: "internal"@,
            reason: "msgpack encode failed: "@ + message@,
        }),
{
    let mut reason = String::from_str("msgpack encode failed: ");
    reason.append(message);
    error_response(Wire::Json, STATUS_INTERNAL_SERVER_ERROR, "internal", reason)
}

} // verus!
