//! The sidecar's HTTP endpoints as decisions on plain values: the health and
//! version answers, admission of a transcription request, and the answer for
//! every way a transcription can end.

use vstd::prelude::*;
use crate::backend::{error_text, SttError, SttErrorView, SttOptions, Transcript};
use crate::text::{decimal, decimal_string, lower_starts_with, starts_with_ascii_lowercase};
use crate::wire::{
    error_reply, error_response, opt_chars, wire_for, ErrorBody, ErrorReply, RequestHeaders, Wire,
    WireResponse, STATUS_BAD_REQUEST, STATUS_INTERNAL_SERVER_ERROR, STATUS_PAYLOAD_TOO_LARGE,
    STATUS_SERVICE_UNAVAILABLE,
};

verus! {

/// The sidecar's version.
pub const VERSION: &'static str = "0.0.1";
/// The name of the inference backend the sidecar is built for.
pub const BACKEND_NAME: &'static str = "whisper-rs";
/// The largest request body accepted, in bytes (50 MiB).
pub const MAX_BODY_BYTES: usize = 52428800;

/// The body of `/healthz`.
#[derive(Debug, Clone)]
pub struct HealthResponse {
    pub status: &'static str,
    pub version: &'static str,
    pub uptime_ms: u128,
    pub stt_ready: bool,
}

/// The body of `/version`.
#[derive(Debug, Clone)]
pub struct VersionResponse {
    pub version: &'static str,
    pub build: &'static str,
    pub backend: &'static str,
}

/// `/healthz`: always `ok`, with the version, the uptime, and whether a
/// transcription backend is loaded.
pub fn healthz(headers: &RequestHeaders, uptime_ms: u128, stt_ready: bool) -> (r: WireResponse<
    HealthResponse,
>)
    ensures
        r.wire == wire_for(opt_chars(headers.accept)),
        r.status == 200,
        r.body.status@ == "ok"@,
        r.body.version@ == VERSION@,
        r.body.uptime_ms == uptime_ms,
        r.body.stt_ready == stt_ready,
{
    WireResponse::ok(
        Wire::from_accept(headers),
        HealthResponse { status: "ok", version: VERSION, uptime_ms, stt_ready },
    )
}

/// `/version`: the version, the build identifier and the backend name.
pub fn version(headers: &RequestHeaders, build: &'static str) -> (r: WireResponse<
    VersionResponse,
>)
    ensures
        r.wire == wire_for(opt_chars(headers.accept)),
        r.status == 200,
        r.body.version@ == VERSION@,
        r.body.build@ == build@,
        r.body.backend@ == BACKEND_NAME@,
{
    WireResponse::ok(
        Wire::from_accept(headers),
        VersionResponse { version: VERSION, build, backend: BACKEND_NAME },
    )
}

/// The query string of `/v1/stt`.
#[derive(Debug, Clone)]
pub struct SttQuery {
    pub language: Option<String>,
    pub translate: bool,
    pub segments: bool,
}

impl Default for SttQuery {
    fn default() -> (r: SttQuery)
        ensures
            r.language is None,
            !r.translate,
            !r.segments,
    {
        SttQuery { language: None, translate: false, segments: false }
    }
}

/// Whether a `Content-Type` value announces WAV audio: present, and
/// beginning with `audio/wav` once ASCII letters are lower-cased.
pub open spec fn content_type_ok(ct: Option<Seq<char>>) -> bool {
    match ct {
        Some(s) => lower_starts_with(s, "audio/wav"@),
        None => false,
    }
}

/// The refusal owed to a transcription request, if any, in the order the
/// checks are made: the content type, then the body size, then whether a
/// backend is loaded.
pub open spec fn stt_refusal(headers: RequestHeaders, body_len: nat, stt_ready: bool) -> Option<
    ErrorReply,
> {
    let wire = wire_for(opt_chars(headers.accept));
    if !content_type_ok(opt_chars(headers.content_type)) {
        Some(
            ErrorReply {
                wire,
                status: STATUS_BAD_REQUEST,
                error: "bad_audio"@,
                reason: "Content-Type must be audio/wav"@,
            },
        )
    } else if body_len > MAX_BODY_BYTES {
        Some(
            ErrorReply {
                wire,
                status: STATUS_PAYLOAD_TOO_LARGE,
                error: "payload_too_large"@,
                reason: "body "@ + decimal(body_len) + " bytes exceeds 52428800"@,
            },
        )
    } else if !stt_ready {
        Some(
            ErrorReply {
                wire,
                status: STATUS_SERVICE_UNAVAILABLE,
                error: "stt_unavailable"@,
                reason: "model not loaded"@,
            },
        )
    } else {
        None
    }
}

/// The transcription options that a query asks for.
pub open spec fn options_match(q: SttQuery, o: SttOptions) -> bool {
    &&& opt_chars(o.language) == opt_chars(q.language)
    &&& o.translate == q.translate
    &&& o.want_segments == q.segments
}

/// How a transcription request is admitted.
pub enum SttAdmission {
    /// The request is answered at once with this error.
    Refused(WireResponse<ErrorBody>),
    /// The audio is to be decoded, then transcribed with these options.
    Admitted { wire: Wire, options: SttOptions },
}

/// Admission of a `/v1/stt` request from its headers, query, body length and
/// whether a backend is loaded.
pub fn stt_admit(headers: &RequestHeaders, query: SttQuery, body_len: usize, stt_ready: bool) -> (r:
    SttAdmission)
    ensures
        match stt_refusal(*headers, body_len as nat, stt_ready) {
            Some(reply) => r matches SttAdmission::Refused(resp) && error_reply(resp) == reply,
            None => r matches SttAdmission::Admitted { wire, options } && wire == wire_for(
                opt_chars(headers.accept),
            ) && options_match(query, options),
        },
        r matches SttAdmission::Admitted { options, .. } ==> options.translate == query.translate
            && options.want_segments == query.segments && opt_chars(options.language) == opt_chars(
            query.language,
        ),
{
    let wire = Wire::from_accept(headers);
    let ct_ok = match &headers.content_type {
        Some(ct) => starts_with_ascii_lowercase(ct.as_str(), "audio/wav"),
        None => false,
    };
    if !ct_ok {
        return SttAdmission::Refused(
            error_response(
                wire,
                STATUS_BAD_REQUEST,
                "bad_audio",
                String::from_str("Content-Type must be audio/wav"),
            ),
        );
    }
    if body_len > MAX_BODY_BYTES {
        let mut reason = String::from_str("body ");
        let digits = decimal_string(body_len as u128);
        reason.append(digits.as_str());
        reason.append(" bytes exceeds 52428800");
        return SttAdmission::Refused(
            error_response(wire, STATUS_PAYLOAD_TOO_LARGE, "payload_too_large", reason),
        );
    }
    if !stt_ready {
        return SttAdmission::Refused(
            error_response(
                wire,
                STATUS_SERVICE_UNAVAILABLE,
                "stt_unavailable",
                String::from_str("model not loaded"),
            ),
        );
    }
    let options = SttOptions {
        language: query.language,
        translate: query.translate,
        want_segments: query.segments,
    };
    SttAdmission::Admitted { wire, options }
}

/// The status and code that answer a transcription error: bad or
/// unsupported audio is the client's fault (400), a missing or busy model is
/// a temporary unavailability (503), anything else is internal (500).
pub open spec fn error_status(e: SttErrorView) -> (u16, Seq<char>) {
    match e {
        SttErrorView::AudioDecode(_) => (STATUS_BAD_REQUEST, "bad_audio"@),
        SttErrorView::AudioUnsupported(_) => (STATUS_BAD_REQUEST, "unsupported_audio"@),
        SttErrorView::ModelNotLoaded => (STATUS_SERVICE_UNAVAILABLE, "stt_unavailable"@),
        SttErrorView::Busy => (STATUS_SERVICE_UNAVAILABLE, "busy"@),
        _ => (STATUS_INTERNAL_SERVER_ERROR, "internal"@),
    }
}

/// The error response for a transcription error.
pub fn stt_error_to_response(wire: Wire, err: SttError) -> (r: WireResponse<ErrorBody>)
    ensures
        error_reply(r) == (ErrorReply {
            wire,
            status: error_status(err@).0,
            error: error_status(err@).1,
            reason: error_text(err@),
        }),
{
    let (status, code): (u16, &'static str) = match &err {
        SttError::AudioDecode(_) => (STATUS_BAD_REQUEST, "bad_audio"),
        SttError::AudioUnsupported(_) => (STATUS_BAD_REQUEST, "unsupported_audio"),
        SttError::ModelNotLoaded => (STATUS_SERVICE_UNAVAILABLE, "stt_unavailable"),
        SttError::Busy => (STATUS_SERVICE_UNAVAILABLE, "busy"),
        SttError::Resample(_) | SttError::Whisper(_) | SttError::Internal(_) => (
            STATUS_INTERNAL_SERVER_ERROR,
            "internal",
        ),
    };
    error_response(wire, status, code, err.message())
}

/// How the decoding of a request's audio failed.
pub enum AudioFailure {
    /// The audio was refused or could not be processed.
    Rejected(SttError),
    /// The decoding task died; the text describes how.
    Panicked(String),
}

/// The answer when the audio of an admitted request could not be decoded.
pub fn stt_audio_failed(wire: Wire, failure: AudioFailure) -> (r: WireResponse<ErrorBody>)
    ensures
        match failure {
            AudioFailure::Rejected(e) => error_reply(r) == (ErrorReply {
                wire,
                status: error_status(e@).0,
                error: error_status(e@).1,
                reason: error_text(e@),
            }),
            AudioFailure::Panicked(m) => error_reply(r) == (ErrorReply {
                wire,
                status: STATUS_INTERNAL_SERVER_ERROR,
                error: "internal"@,
                reason: "audio task panicked: "@ + m@,
            }),
        },
{
    match failure {
        AudioFailure::Rejected(e) => stt_error_to_response(wire, e),
        AudioFailure::Panicked(m) => {
            let mut reason = String::from_str("audio task panicked: ");
            reason.append(m.as_str());
            error_response(wire, STATUS_INTERNAL_SERVER_ERROR, "internal", reason)
        },
    }
}

/// The final answer to an admitted transcription request.
pub enum SttReply {
    Transcript(WireResponse<Transcript>),
    Error(WireResponse<ErrorBody>),
}

/// The answer once the backend has finished: the transcript with 200, or
/// the error response for its error; either way in the admitted encoding.
pub fn stt_finish(wire: Wire, result: Result<Transcript, SttError>) -> (r: SttReply)
    ensures
        match result {
            Ok(t) => r matches SttReply::Transcript(resp) && resp.wire == wire && resp.status
                == 200 && resp.body == t,
            Err(e) => r matches SttReply::Error(resp) && error_reply(resp) == (ErrorReply {
                wire,
                status: error_status(e@).0,
                error: error_status(e@).1,
                reason: error_text(e@),
            }),
        },
{
    match result {
        Ok(t) => SttReply::Transcript(WireResponse::ok(wire, t)),
        Err(e) => SttReply::Error(stt_error_to_response(wire, e)),
    }
}

/// The transcription backend the sidecar starts with.
#[derive(Debug, Clone)]
pub enum BackendChoice {
    /// The stub backend.
    Stub,
    /// Whisper, with the model at this path.
    Whisper(String),
    /// No backend: transcription answers `503 stt_unavailable`.
    Unavailable,
}

/// The backend chosen from the backend setting, the model-path setting and
/// whether that model file exists: the stub when the backend setting is
/// exactly `stub`, else Whisper when a model path is set and its file
/// exists, else none.
pub open spec fn backend_choice(
    stt_backend: Option<Seq<char>>,
    model_path: Option<Seq<char>>,
    model_exists: bool,
) -> Option<Option<Seq<char>>> {
    if stt_backend == Some("stub"@) {
        Some(None)
    } else {
        match model_path {
            Some(p) => if model_exists {
                Some(Some(p))
            } else {
                None
            },
            None => None,
        }
    }
}

/// A `BackendChoice` by value: `Some(None)` for the stub, `Some(Some(p))`
/// for Whisper with model `p`, `None` for no backend.
pub open spec fn choice_view(c: BackendChoice) -> Option<Option<Seq<char>>> {
    match c {
        BackendChoice::Stub => Some(None),
        BackendChoice::Whisper(p) => Some(Some(p@)),
        BackendChoice::Unavailable => None,
    }
}

/// Chooses the backend the sidecar starts with.
pub fn choose_backend(
    stt_backend: Option<String>,
    model_path: Option<String>,
    model_exists: bool,
) -> (r: BackendChoice)
    ensures
        choice_view(r) == backend_choice(opt_chars(stt_backend), opt_chars(model_path), model_exists),
        opt_chars(stt_backend) != Some("stub"@) && model_exists ==> match model_path {
            Some(p) => r matches BackendChoice::Whisper(q) && q@ == p@,
            None => r is Unavailable,
        },
        opt_chars(stt_backend) == Some("stub"@) ==> r is Stub,
{
    if let Some(b) = &stt_backend {
        let stub = String::from_str("stub");
        if *b == stub {
            return BackendChoice::Stub;
        }
    }
    match model_path {
        Some(p) => if model_exists {
            BackendChoice::Whisper(p)
        } else {
            BackendChoice::Unavailable
        },
        None => BackendChoice::Unavailable,
    }
}

} // verus!
