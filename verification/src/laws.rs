//! Properties that hold across the sidecar's and the client's functions.

use vstd::prelude::*;
use crate::backend::SttErrorView;
use crate::cli::{
    accept_value, exit_status, failure_code, request_decision, socket_choice, CliOutcome,
    SocketError, SocketPathView,
};
use crate::backend::SttOptions;
use crate::server::{
    backend_choice, content_type_ok, error_status, options_match, stt_refusal, SttQuery,
    MAX_BODY_BYTES,
};
use crate::whisper::{
    cs_to_ms, encoder_name, joined_text, language_of, path_join, segment_from, RawSegment,
};
use crate::audio::{format_problem, full_scale, WavFormat};
use crate::backend::{clamp_u32, error_text, Segment};
use crate::stub::stub_text;
use crate::cli::{health_text, HealthBody};
use crate::text::{ascii_lower, law_ascii_lower};
use crate::text::{decimal, law_decimal_parses_back, parsed_u64};
use vstd::arithmetic::power2::{lemma2_to64, pow2};
use crate::text::{contains_seq, occurs_at};
use crate::wire::{opt_chars, wire_for, ErrorReply, RequestHeaders, Wire};

verus! {

/// The encoding the client asks for is the encoding the sidecar answers
/// in: the client's `Accept` value for MessagePack selects MessagePack, and
/// its value for JSON selects JSON.
pub proof fn law_client_accept_selects_wire(msgpack: bool)
    ensures
        wire_for(Some(accept_value(msgpack))) == (if msgpack {
            Wire::MsgPack
        } else {
            Wire::Json
        }),
{
    reveal_strlit("application/msgpack");
    reveal_strlit("application/json");
    let m = "application/msgpack"@;
    if msgpack {
        assert(m.subrange(0, m.len() as int) =~= m);
        assert(occurs_at(m, m, 0));
    } else {
        let j = "application/json"@;
        assert(j.len() < m.len());
        assert(!contains_seq(j, m));
    }
}

/// A transcription request is admitted exactly when it announces WAV audio,
/// its body is within the size limit, and a model is loaded.
pub proof fn law_admitted_exactly_when_valid(
    headers: RequestHeaders,
    body_len: nat,
    stt_ready: bool,
)
    ensures
        stt_refusal(headers, body_len, stt_ready) is None <==> (content_type_ok(
            opt_chars(headers.content_type),
        ) && body_len <= MAX_BODY_BYTES && stt_ready),
{
}

/// A request that does not announce WAV audio is answered `400 bad_audio`,
/// whatever its size and whether a model is loaded.
pub proof fn law_content_type_checked_first(
    headers: RequestHeaders,
    body_len: nat,
    stt_ready: bool,
)
    requires
        !content_type_ok(opt_chars(headers.content_type)),
    ensures
        stt_refusal(headers, body_len, stt_ready) == Some(
            ErrorReply {
                wire: wire_for(opt_chars(headers.accept)),
                status: 400,
                error: "bad_audio"@,
                reason: "Content-Type must be audio/wav"@,
            },
        ),
{
}

/// With no model loaded, a well-formed request is answered
/// `503 stt_unavailable`, in the encoding the client asked for.
pub proof fn law_missing_model_is_unavailable(headers: RequestHeaders, body_len: nat)
    requires
        content_type_ok(opt_chars(headers.content_type)),
        body_len <= MAX_BODY_BYTES,
    ensures
        stt_refusal(headers, body_len, false) == Some(
            ErrorReply {
                wire: wire_for(opt_chars(headers.accept)),
                status: 503,
                error: "stt_unavailable"@,
                reason: "model not loaded"@,
            },
        ),
{
}

/// Transcription errors are answered by class: bad or unsupported audio,
/// and only that, is the client's fault (400); a missing or busy model, and
/// only that, is a temporary unavailability (503); the rest is internal (500).
pub proof fn law_error_classes(e: SttErrorView)
    ensures
        (error_status(e).0 == 400) <==> (e is AudioDecode || e is AudioUnsupported),
        (error_status(e).0 == 503) <==> (e is ModelNotLoaded || e is Busy),
        (error_status(e).0 == 500) <==> (e is Resample || e is Whisper || e is Internal),
{
}

/// A socket given on the command line is used, as given, whatever the
/// environment holds.
pub proof fn law_socket_flag_wins<P>(arg: P, env_socket: Option<Seq<char>>, home: Option<Seq<char>>)
    ensures
        socket_choice(Some(arg), env_socket, home) == Ok::<SocketPathView<P>, SocketError>(
            SocketPathView::Given(arg),
        ),
{
}

/// A sidecar that cannot be reached ends the client with exit status 2.
pub proof fn law_unreachable_exits_2()
    ensures
        request_decision(None) == Some(CliOutcome::Unreachable),
        exit_status(CliOutcome::Unreachable) == 2,
{
}

/// A client error answer (4xx) ends the client with code 3, a server error
/// answer (5xx) with code 4, and a success with no failure code.
pub proof fn law_http_exit_codes(status: u16)
    ensures
        400 <= status < 500 ==> failure_code(status) == Some(3i32),
        500 <= status < 600 ==> failure_code(status) == Some(4i32),
        200 <= status < 300 ==> failure_code(status) is None,
{
}

/// An admitted request is transcribed with exactly the query's flags and
/// language: `translate` from `translate`, timed segments from `segments`;
/// and the options copied field for field from the query are admitted.
pub proof fn law_admitted_options_follow_query(q: SttQuery, o: SttOptions)
    ensures
        options_match(q, o) ==> o.translate == q.translate && o.want_segments == q.segments
            && opt_chars(o.language) == opt_chars(q.language),
        options_match(
            q,
            SttOptions { language: q.language, translate: q.translate, want_segments: q.segments },
        ),
{
}

/// Wherever `application/msgpack` occurs in an `Accept` value, at the start,
/// the middle or the end, the answer is MessagePack.
pub proof fn law_msgpack_wherever_named(a: Seq<char>, i: int)
    requires
        0 <= i,
        i + 19 <= a.len(),
        a.subrange(i, i + 19) == "application/msgpack"@,
    ensures
        wire_for(Some(a)) == Wire::MsgPack,
{
    reveal_strlit("application/msgpack");
    assert(occurs_at(a, "application/msgpack"@, i));
}

/// An `Accept` value in which `application/msgpack` occurs nowhere, and a
/// missing `Accept` header, are answered in JSON.
pub proof fn law_json_unless_named(a: Seq<char>)
    requires
        forall|i: int| 0 <= i && i + 19 <= a.len() ==> #[trigger] a.subrange(i, i + 19)
            != "application/msgpack"@,
    ensures
        wire_for(Some(a)) == Wire::Json,
        wire_for(None) == Wire::Json,
{
    reveal_strlit("application/msgpack");
    if contains_seq(a, "application/msgpack"@) {
        let i = choose|i: int| occurs_at(a, "application/msgpack"@, i);
        assert(a.subrange(i, i + 19) == "application/msgpack"@);
    }
}

/// The stub is chosen exactly by the backend setting `stub`. Any other
/// setting, or none, is treated alike: Whisper with the configured model
/// where its file exists, no backend otherwise.
pub proof fn law_backend_choice(s: Option<Seq<char>>, p: Seq<char>, exists: bool, m: Option<Seq<char>>)
    ensures
        backend_choice(Some("stub"@), m, exists) == Some(None::<Seq<char>>),
        s != Some("stub"@) ==> backend_choice(s, Some(p), true) == Some(Some(p)),
        s != Some("stub"@) ==> backend_choice(s, Some(p), false) == None::<Option<Seq<char>>>,
        s != Some("stub"@) ==> backend_choice(s, None, exists) == None::<Option<Seq<char>>>,
        backend_choice(s, Some(p), true) == backend_choice(None, Some(p), true) || s == Some(
            "stub"@,
        ),
{
}

/// Appending a segment appends its text to the transcript text, and the
/// text of two runs of segments is the text of the first followed by the
/// text of the second: every segment's text appears, once, in order.
pub proof fn law_joined_text_appends(s: Seq<RawSegment>, t: Seq<RawSegment>, x: RawSegment)
    ensures
        joined_text(Seq::<RawSegment>::empty()) == Seq::<char>::empty(),
        joined_text(s.push(x)) == joined_text(s) + x.text@,
        joined_text(s + t) == joined_text(s) + joined_text(t),
    decreases t.len(),
{
    assert(s.push(x).drop_last() =~= s);
    if t.len() == 0 {
        assert(s + t =~= s);
        assert(joined_text(s) + joined_text(t) =~= joined_text(s));
    } else {
        law_joined_text_appends(s, t.drop_last(), x);
        assert((s + t).drop_last() =~= s + t.drop_last());
        assert((s + t).last() == t.last());
        assert(joined_text(s + t) =~= joined_text(s) + joined_text(t));
    }
}

/// Without `--socket`, the socket setting is used whenever it is present,
/// whatever `$HOME` holds; only without both is `$HOME` consulted, and only
/// without all three does resolution fail.
pub proof fn law_socket_setting_before_home<P>(p: Seq<char>, h: Option<Seq<char>>, home: Seq<char>)
    ensures
        socket_choice::<P>(None, Some(p), h) == Ok::<SocketPathView<P>, SocketError>(
            SocketPathView::Named(p),
        ),
        socket_choice::<P>(None, None, Some(home)) == Ok::<SocketPathView<P>, SocketError>(
            SocketPathView::Named(home + "/Library/Application Support/app/sidecar.sock"@),
        ),
        socket_choice::<P>(None, None, None) == Err::<SocketPathView<P>, SocketError>(
            SocketError::HomeNotSet,
        ),
{
}

/// A well-formed request with a body over the limit is answered
/// `413 payload_too_large`, whether or not a model is loaded.
pub proof fn law_oversized_body_is_too_large(headers: RequestHeaders, body_len: nat, ready: bool)
    requires
        content_type_ok(opt_chars(headers.content_type)),
        body_len > MAX_BODY_BYTES,
    ensures
        stt_refusal(headers, body_len, ready) matches Some(r) && r.status == 413 && r.error
            == "payload_too_large"@ && r.wire == wire_for(opt_chars(headers.accept)),
{
}

/// A backend that reports its model missing is answered exactly as a
/// request refused because no model is loaded: same status, code and reason.
pub proof fn law_model_not_loaded_matches_refusal(headers: RequestHeaders, body_len: nat)
    requires
        content_type_ok(opt_chars(headers.content_type)),
        body_len <= MAX_BODY_BYTES,
    ensures
        stt_refusal(headers, body_len, false) matches Some(r) && r.status == error_status(
            SttErrorView::ModelNotLoaded,
        ).0 && r.error == error_status(SttErrorView::ModelNotLoaded).1 && r.reason == error_text(
            SttErrorView::ModelNotLoaded,
        ),
{
}

/// The description of an error that carries a detail ends with that detail,
/// and its prefix does not depend on the detail.
pub proof fn law_error_text_ends_with_detail(a: Seq<char>, b: Seq<char>)
    ensures
        error_text(SttErrorView::AudioDecode(a)).subrange(
            error_text(SttErrorView::AudioDecode(a)).len() - a.len(),
            error_text(SttErrorView::AudioDecode(a)).len() as int,
        ) == a,
        error_text(SttErrorView::AudioDecode(a)).len() - a.len() == error_text(
            SttErrorView::AudioDecode(b),
        ).len() - b.len(),
        error_text(SttErrorView::AudioUnsupported(a)).subrange(
            error_text(SttErrorView::AudioUnsupported(a)).len() - a.len(),
            error_text(SttErrorView::AudioUnsupported(a)).len() as int,
        ) == a,
        error_text(SttErrorView::Whisper(a)).subrange(
            error_text(SttErrorView::Whisper(a)).len() - a.len(),
            error_text(SttErrorView::Whisper(a)).len() as int,
        ) == a,
        error_text(SttErrorView::Internal(a)).subrange(
            error_text(SttErrorView::Internal(a)).len() - a.len(),
            error_text(SttErrorView::Internal(a)).len() as int,
        ) == a,
        error_text(SttErrorView::Resample(a)).subrange(
            error_text(SttErrorView::Resample(a)).len() - a.len(),
            error_text(SttErrorView::Resample(a)).len() as int,
        ) == a,
{
    let e1 = error_text(SttErrorView::AudioDecode(a));
    assert(e1.subrange(e1.len() - a.len(), e1.len() as int) =~= a);
    let e2 = error_text(SttErrorView::AudioUnsupported(a));
    assert(e2.subrange(e2.len() - a.len(), e2.len() as int) =~= a);
    let e3 = error_text(SttErrorView::Whisper(a));
    assert(e3.subrange(e3.len() - a.len(), e3.len() as int) =~= a);
    let e4 = error_text(SttErrorView::Internal(a));
    assert(e4.subrange(e4.len() - a.len(), e4.len() as int) =~= a);
    let e5 = error_text(SttErrorView::Resample(a));
    assert(e5.subrange(e5.len() - a.len(), e5.len() as int) =~= a);
}

/// A WAV header is accepted exactly when its sample rate lies between
/// 8 kHz and 96 kHz inclusive and it has one or two channels; a rate out of
/// range is reported even when the channel count is also wrong.
pub proof fn law_wav_format_accepted(f: WavFormat)
    ensures
        format_problem(f) is None <==> (8000 <= f.sample_rate <= 96000 && 1 <= f.channels <= 2),
        !(8000 <= f.sample_rate <= 96000) ==> format_problem(f) == Some(
            SttErrorView::AudioUnsupported(
                "sample rate "@ + decimal(f.sample_rate as nat) + " outside [8000, 96000]"@,
            ),
        ),
{
}

/// Integer samples are accepted in widths of 8, 16, 24 and 32 bits, and no
/// other; their full-scale value is the largest signed value of that width,
/// 2^(bits-1) - 1.
pub proof fn law_full_scale(bits: u16)
    ensures
        full_scale(bits) is Some <==> (bits == 8 || bits == 16 || bits == 24 || bits == 32),
        full_scale(bits) matches Some(m) ==> m + 1 == pow2((bits - 1) as nat),
{
    lemma2_to64();
}

/// A centisecond timestamp becomes ten times as many milliseconds, with
/// negative times at 0 and times past the `u32` range at `u32::MAX`.
pub proof fn law_centiseconds_times_ten(cs: i64)
    ensures
        cs < 0 ==> cs_to_ms(cs) == 0,
        0 <= cs && cs * 10 <= u32::MAX ==> cs_to_ms(cs) as int == cs * 10,
        cs * 10 > u32::MAX ==> cs_to_ms(cs) == u32::MAX,
{
}

/// The length of `n` samples at 16 kHz is `n / 16` milliseconds, rounded
/// down, wherever that fits a `u32`.
pub proof fn law_duration_of_samples(n: nat)
    ensures
        n / 16 <= u32::MAX ==> clamp_u32(((n * 1000) / 16000) as int) as int == n / 16,
        n / 16 > u32::MAX ==> clamp_u32(((n * 1000) / 16000) as int) == u32::MAX,
{
    assert((n * 1000) / 16000 == n / 16) by (nonlinear_arith);
}

/// A timed segment keeps its own text and the times of its own start and
/// end; the detected language is kept, and `und` stands for none.
pub proof fn law_segments_and_language(r: RawSegment, s: Segment, l: Seq<char>)
    ensures
        segment_from(r, s) ==> s.text@ == r.text@ && s.start_ms == cs_to_ms(r.start_cs)
            && s.end_ms == cs_to_ms(r.end_cs),
        language_of(Some(l)) == l,
        language_of(None) == "und"@,
{
}

/// The number in the stub's text reads back as the number of samples it was
/// given: the text is `[stub] `, that number, and ` samples`.
pub proof fn law_stub_text_names_count(n: u64)
    ensures
        stub_text(n as nat).subrange(0, 7) == "[stub] "@,
        parsed_u64(stub_text(n as nat).subrange(7, stub_text(n as nat).len() - 8)) == Some(n),
        stub_text(n as nat).subrange(stub_text(n as nat).len() - 8, stub_text(n as nat).len() as int)
            == " samples"@,
{
    reveal_strlit("[stub] ");
    reveal_strlit(" samples");
    law_decimal_parses_back(n);
    let t = stub_text(n as nat);
    let d = decimal(n as nat);
    assert(t.subrange(0, 7) =~= "[stub] "@);
    assert(t.subrange(7, t.len() - 8) =~= d);
    assert(t.subrange(t.len() - 8, t.len() as int) =~= " samples"@);
}

/// Joining a relative name to a directory keeps the directory as the
/// beginning and the name as the end, with at most one `/` put between;
/// an absolute name stands alone.
pub proof fn law_path_join(base: Seq<char>, name: Seq<char>)
    ensures
        name.len() > 0 && name[0] == '/' ==> path_join(base, name) == name,
        !(name.len() > 0 && name[0] == '/') ==> {
            let r = path_join(base, name);
            &&& r.subrange(0, base.len() as int) == base
            &&& r.subrange(r.len() - name.len(), r.len() as int) == name
            &&& base.len() <= r.len() - name.len() <= base.len() + 1
        },
{
    reveal_strlit("/");
    if !(name.len() > 0 && name[0] == '/') {
        let r = path_join(base, name);
        assert(r.subrange(0, base.len() as int) =~= base);
        assert(r.subrange(r.len() - name.len(), r.len() as int) =~= name);
    }
}

/// The CoreML encoder's name is the model's stem followed by
/// `-encoder.mlmodelc`.
pub proof fn law_encoder_name(stem: Seq<char>)
    ensures
        encoder_name(Some(stem)).subrange(0, stem.len() as int) == stem,
        encoder_name(Some(stem)).subrange(stem.len() as int, encoder_name(Some(stem)).len() as int)
            == "-encoder.mlmodelc"@,
        encoder_name(None) == "-encoder.mlmodelc"@,
{
    let e = encoder_name(Some(stem));
    assert(e.subrange(0, stem.len() as int) =~= stem);
    assert(e.subrange(stem.len() as int, e.len() as int) =~= "-encoder.mlmodelc"@);
}

/// The client's exit statuses: 2 whenever the sidecar cannot be found or
/// reached, 1 for a subcommand not yet available, 4 for a failure, and a
/// finished subcommand's own code where it fits a byte.
pub proof fn law_exit_statuses(c: i32)
    ensures
        exit_status(CliOutcome::SocketUnresolved) == 2,
        exit_status(CliOutcome::SocketMissing) == 2,
        exit_status(CliOutcome::Unreachable) == 2,
        exit_status(CliOutcome::NotImplemented) == 1,
        exit_status(CliOutcome::Failed) == 4,
        0 <= c < 256 ==> exit_status(CliOutcome::Finished(c)) as int == c,
{
}

/// Audio the client sends undecodable is answered with the same code as
/// audio announced with the wrong type: `400 bad_audio`.
pub proof fn law_bad_audio_code_shared(headers: RequestHeaders, body_len: nat, ready: bool, d: Seq<char>)
    requires
        !content_type_ok(opt_chars(headers.content_type)),
    ensures
        stt_refusal(headers, body_len, ready) matches Some(r) && r.status == error_status(
            SttErrorView::AudioDecode(d),
        ).0 && r.error == error_status(SttErrorView::AudioDecode(d)).1,
{
}

/// The content-type check ignores the case of ASCII letters, accepts
/// `audio/wav` followed by anything (parameters included), and refuses
/// anything shorter than `audio/wav`.
pub proof fn law_content_type_check(s: Seq<char>, t: Seq<char>)
    ensures
        content_type_ok(Some(s)) <==> content_type_ok(Some(s.map_values(|c: char| ascii_lower(c)))),
        content_type_ok(Some("audio/wav"@ + t)),
        content_type_ok(Some(s)) ==> s.len() >= 9,
        !content_type_ok(None),
{
    reveal_strlit("audio/wav");
    let m = "audio/wav"@;
    let l = s.map_values(|c: char| ascii_lower(c));
    assert forall|k: int| 0 <= k < m.len() implies ascii_lower(m[k]) == m[k] by {
        law_ascii_lower(m[k]);
    }
    assert forall|k: int| 0 <= k < s.len() implies ascii_lower(#[trigger] l[k]) == ascii_lower(s[k]) by {
        law_ascii_lower(s[k]);
    }
    assert(l.len() == s.len());
    if content_type_ok(Some(s)) {
        assert forall|k: int| 0 <= k < m.len() implies ascii_lower(#[trigger] l[k]) == m[k] by {
            assert(ascii_lower(l[k]) == ascii_lower(s[k]));
        }
    }
    if content_type_ok(Some(l)) {
        assert forall|k: int| 0 <= k < m.len() implies ascii_lower(#[trigger] s[k]) == m[k] by {
            assert(ascii_lower(l[k]) == ascii_lower(s[k]));
        }
    }
    let u = m + t;
    assert forall|k: int| 0 <= k < m.len() implies ascii_lower(#[trigger] u[k]) == m[k] by {
        assert(u[k] == m[k]);
    }
}

/// The client's health line begins with the status and ends with whether a
/// model is ready, spelled `true` or `false`.
pub proof fn law_health_line(h: HealthBody)
    ensures
        ({
            let t = health_text(h);
            let head = "status="@ + h.status@;
            let tail = if h.stt_ready {
                "  stt_ready=true"@
            } else {
                "  stt_ready=false"@
            };
            &&& t.subrange(0, head.len() as int) == head
            &&& t.subrange(t.len() - tail.len(), t.len() as int) == tail
        }),
{
    reveal_strlit("status=");
    reveal_strlit("  stt_ready=");
    reveal_strlit("  stt_ready=true");
    reveal_strlit("  stt_ready=false");
    reveal_strlit("true");
    reveal_strlit("false");
    let t = health_text(h);
    let head = "status="@ + h.status@;
    let tail = if h.stt_ready {
        "  stt_ready=true"@
    } else {
        "  stt_ready=false"@
    };
    assert(t.subrange(0, head.len() as int) =~= head);
    assert(t.subrange(t.len() - tail.len(), t.len() as int) =~= tail);
}

} // verus!
