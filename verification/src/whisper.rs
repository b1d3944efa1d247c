//! The parts of the Whisper backend that are decisions and bookkeeping: the
//! location of the optional CoreML encoder, the description of a loaded
//! model, the wording of inference errors, and the assembly of a transcript
//! from the segments that inference produced.

use vstd::prelude::*;
use crate::backend::{
    clamp_u32, duration_ms_from_samples, saturating_ms, ModelInfo, Segment, SttError,
    SttErrorView, Transcript,
};
use crate::text::{decimal, decimal_string, trim_whitespace, trimmed};
use crate::wire::opt_chars;

verus! {

/// What `std::path::Path::file_stem` gives for the path `p`.
pub uninterp spec fn path_file_stem(p: Seq<char>) -> Option<Seq<char>>;

/// What `std::path::Path::parent` gives for the path `p`.
pub uninterp spec fn path_parent(p: Seq<char>) -> Option<Seq<char>>;

/// `base` joined with `name` as `std::path::Path::join` does on Unix: an
/// absolute `name` replaces `base`; otherwise `name` is appended, after a
/// `/` unless `base` is empty or already ends with one.
pub open spec fn path_join(base: Seq<char>, name: Seq<char>) -> Seq<char> {
    if name.len() > 0 && name[0] == '/' {
        name
    } else if base.len() == 0 || base.last() == '/' {
        base + name
    } else {
        base + "/"@ + name
    }
}

/// The file name of `path` without its extension, by
/// `std::path::Path::file_stem`; claimed to be `path_file_stem` of the path.
/// A stem cut from a `&str` is valid UTF-8, so the lossy conversion keeps it
/// as it is.
#[verifier::external_body]
fn file_stem(path: &str) -> (r: Option<String>)
    ensures
        opt_chars(r) == path_file_stem(path@),
{
    match std::path::Path::new(path).file_stem() {
        Some(s) => Some(s.to_string_lossy().into_owned()),
        None => None,
    }
}

/// The path of the directory holding `path`, by `std::path::Path::parent`;
/// claimed to be `path_parent` of the path.
#[verifier::external_body]
fn parent(path: &str) -> (r: Option<String>)
    ensures
        opt_chars(r) == path_parent(path@),
{
    match std::path::Path::new(path).parent() {
        Some(p) => Some(p.to_string_lossy().into_owned()),
        None => None,
    }
}

/// Joins a path and a name as `std::path::Path::join` does on Unix.
pub fn join_path(base: &str, name: &str) -> (r: String)
    ensures
        r@ == path_join(base@, name@),
{
    if name.unicode_len() > 0 && name.get_char(0) == '/' {
        return String::from_str(name);
    }
    let n: usize = base.unicode_len();
    let mut r = String::from_str(base);
    if n > 0 && base.get_char(n - 1) != '/' {
        r.append("/");
    }
    r.append(name);
    r
}

/// The name of the CoreML encoder directory that belongs to a model whose
/// file stem is `stem`.
pub open spec fn encoder_name(stem: Option<Seq<char>>) -> Seq<char> {
    match stem {
        Some(s) => s + "-encoder.mlmodelc"@,
        None => "-encoder.mlmodelc"@,
    }
}

/// The directory that holds a model file, `.` where the path has none.
pub open spec fn model_dir(parent: Option<Seq<char>>) -> Seq<char> {
    match parent {
        Some(p) => p,
        None => "."@,
    }
}

/// The name of the encoder directory for a model file with stem `stem`:
/// `<stem>-encoder.mlmodelc`, with an empty stem where there is none.
pub fn encoder_dir_name(stem: Option<String>) -> (r: String)
    ensures
        r@ == encoder_name(opt_chars(stem)),
{
    match stem {
        Some(s) => {
            let mut r = s;
            r.append("-encoder.mlmodelc");
            r
        },
        None => String::from_str("-encoder.mlmodelc"),
    }
}

/// The directory to look in for a model's encoder: the model's parent
/// directory, or `.` where the path has no parent.
pub fn model_directory(parent: Option<String>) -> (r: String)
    ensures
        r@ == model_dir(opt_chars(parent)),
{
    match parent {
        Some(p) => p,
        None => String::from_str("."),
    }
}

/// Where the CoreML encoder of a model sits: beside the model file, named
/// after its stem with the suffix `-encoder.mlmodelc`.
pub fn coreml_sidecar_path(model_path: &str) -> (r: String)
    ensures
        r@ == path_join(
            model_dir(path_parent(model_path@)),
            encoder_name(path_file_stem(model_path@)),
        ),
{
    let name = encoder_dir_name(file_stem(model_path));
    let dir = model_directory(parent(model_path));
    join_path(dir.as_str(), name.as_str())
}

/// The identifier of a model: its file stem, or `whisper` where the path
/// has none.
pub open spec fn model_id_of(stem: Option<Seq<char>>) -> Seq<char> {
    match stem {
        Some(s) => s,
        None => "whisper"@,
    }
}

/// The identifier of a model with file stem `stem`.
pub fn model_id_from_stem(stem: Option<String>) -> (r: String)
    ensures
        r@ == model_id_of(opt_chars(stem)),
{
    match stem {
        Some(s) => s,
        None => String::from_str("whisper"),
    }
}

/// A loaded Whisper model as the rest of the sidecar sees it.
#[derive(Debug, Clone)]
pub struct WhisperModel {
    pub model_path: String,
    pub model_id: String,
    pub coreml_enabled: bool,
}

impl WhisperModel {
    /// The description of the model at `model_path`: it is named after the
    /// file stem, and CoreML is used when the encoder is present and its use
    /// has not been disabled.
    pub fn describe(model_path: &str, coreml_present: bool, coreml_disabled: bool) -> (r:
        WhisperModel)
        ensures
            r.model_path@ == model_path@,
            r.model_id@ == model_id_of(path_file_stem(model_path@)),
            r.coreml_enabled == (coreml_present && !coreml_disabled),
    {
        WhisperModel {
            model_path: String::from_str(model_path),
            model_id: model_id_from_stem(file_stem(model_path)),
            coreml_enabled: coreml_present && !coreml_disabled,
        }
    }

    /// The model's description.
    pub fn model_info(&self) -> (r: ModelInfo)
        ensures
            r.id@ == self.model_id@,
            r.kind@ == "stt"@,
            r.backend@ == "whisper-rs"@,
            r.path@ == self.model_path@,
            r.coreml == self.coreml_enabled,
            r.loaded,
    {
        ModelInfo {
            id: self.model_id.clone(),
            kind: "stt",
            backend: "whisper-rs",
            path: self.model_path.clone(),
            coreml: self.coreml_enabled,
            loaded: true,
        }
    }
}

/// The error for a model path that is not valid UTF-8.
pub fn invalid_model_path() -> (r: SttError)
    ensures
        r@ == SttErrorView::Internal("model path not valid UTF-8"@),
{
    SttError::Internal(String::from_str("model path not valid UTF-8"))
}

/// The step of inference that failed.
#[derive(Debug, Clone, Copy, PartialEq, Eq)]
pub enum WhisperStep {
    LoadModel,
    CreateState,
    Full,
    SegmentText,
}

/// The prefix that names a failed step in its error.
pub open spec fn step_prefix(step: WhisperStep) -> Seq<char> {
    match step {
        WhisperStep::LoadModel => "load model: "@,
        WhisperStep::CreateState => "create state: "@,
        WhisperStep::Full => "full: "@,
        WhisperStep::SegmentText => "segment text: "@,
    }
}

/// The error for a failed inference step, with the library's message.
pub fn whisper_error(step: WhisperStep, detail: &str) -> (r: SttError)
    ensures
        r@ == SttErrorView::Whisper(step_prefix(step) + detail@),
{
    let mut text = match step {
        WhisperStep::LoadModel => String::from_str("load model: "),
        WhisperStep::CreateState => String::from_str("create state: "),
        WhisperStep::Full => String::from_str("full: "),
        WhisperStep::SegmentText => String::from_str("segment text: "),
    };
    text.append(detail);
    SttError::Whisper(text)
}

/// The error for a segment index that inference does not know.
pub fn segment_out_of_range(index: u32) -> (r: SttError)
    ensures
        r@ == SttErrorView::Whisper("segment "@ + decimal(index as nat) + " out of range"@),
{
    let mut text = String::from_str("segment ");
    let digits = decimal_string(index as u128);
    text.append(digits.as_str());
    text.append(" out of range");
    SttError::Whisper(text)
}

/// A centisecond timestamp in milliseconds: negative times are 0, and times
/// too large for a `u32` are `u32::MAX`.
pub open spec fn cs_to_ms(cs: i64) -> u32 {
    if cs < 0 {
        0
    } else {
        clamp_u32(cs * 10)
    }
}

/// Converts a centisecond timestamp to milliseconds.
pub fn ms_from_centiseconds(cs: i64) -> (r: u32)
    ensures
        r == cs_to_ms(cs),
{
    if cs < 0 {
        return 0;
    }
    if cs > 429496729 {
        u32::MAX
    } else {
        (cs * 10) as u32
    }
}

/// Converting timestamps keeps their order: a segment that starts no later
/// than another still does once both are in milliseconds.
pub proof fn law_timestamps_keep_order(a: i64, b: i64)
    requires
        a <= b,
    ensures
        cs_to_ms(a) <= cs_to_ms(b),
{
}

/// One segment as inference reports it: its text and its start and end in
/// centiseconds.
#[derive(Debug, Clone)]
pub struct RawSegment {
    pub text: String,
    pub start_cs: i64,
    pub end_cs: i64,
}

/// The texts of `segs` run together, in order.
pub open spec fn joined_text(segs: Seq<RawSegment>) -> Seq<char>
    decreases segs.len(),
{
    if segs.len() == 0 {
        Seq::empty()
    } else {
        joined_text(segs.drop_last()) + segs.last().text@
    }
}

/// Whether `s` is the timed segment made of `raw`.
pub open spec fn segment_from(raw: RawSegment, s: Segment) -> bool {
    &&& s.start_ms == cs_to_ms(raw.start_cs)
    &&& s.end_ms == cs_to_ms(raw.end_cs)
    &&& s.text@ == raw.text@
}

/// The language reported for a transcript: the detected one, or `und`
/// where detection gave none.
pub open spec fn language_of(lang: Option<Seq<char>>) -> Seq<char> {
    match lang {
        Some(l) => l,
        None => "und"@,
    }
}

/// The optional language detected, as characters.
pub open spec fn opt_str(o: Option<&str>) -> Option<Seq<char>> {
    match o {
        Some(s) => Some(s@),
        None => None,
    }
}

fn join_texts(raw: &Vec<RawSegment>) -> (r: String)
    ensures
        r@ == joined_text(raw@),
{
    let mut text = String::new();
    let mut i: usize = 0;
    while i < raw.len()
        invariant
            i <= raw@.len(),
            text@ == joined_text(raw@.subrange(0, i as int)),
        decreases raw@.len() - i,
    {
        text.append(raw[i].text.as_str());
        i = i + 1;
        assert(raw@.subrange(0, i as int).drop_last() =~= raw@.subrange(0, i - 1));
    }
    assert(raw@.subrange(0, raw@.len() as int) =~= raw@);
    text
}

fn timed_segments(raw: &Vec<RawSegment>) -> (r: Vec<Segment>)
    ensures
        r@.len() == raw@.len(),
        forall|i: int| 0 <= i < raw@.len() ==> segment_from(raw@[i], #[trigger] r@[i]),
{
    let mut segs: Vec<Segment> = Vec::new();
    let mut i: usize = 0;
    while i < raw.len()
        invariant
            i <= raw@.len(),
            segs@.len() == i,
            forall|k: int| 0 <= k < i ==> segment_from(raw@[k], #[trigger] segs@[k]),
        decreases raw@.len() - i,
    {
        let seg = Segment {
            start_ms: ms_from_centiseconds(raw[i].start_cs),
            end_ms: ms_from_centiseconds(raw[i].end_cs),
            text: raw[i].text.clone(),
        };
        segs.push(seg);
        i = i + 1;
    }
    segs
}

impl WhisperModel {
    /// The transcript of a clip of `sample_count` samples whose inference
    /// produced the segments `raw` and detected the language `lang`, after
    /// `elapsed_ms` milliseconds: the segment texts run together and
    /// trimmed, the timed segments only when they were asked for.
    pub fn transcript(
        &self,
        raw: &Vec<RawSegment>,
        lang: Option<&str>,
        want_segments: bool,
        sample_count: usize,
        elapsed_ms: u128,
    ) -> (t: Transcript)
        requires
            sample_count * 1000 <= usize::MAX,
        ensures
            t.text@ == trimmed(joined_text(raw@)),
            t.language@ == language_of(opt_str(lang)),
            t.duration_ms == clamp_u32((sample_count * 1000) / 16000),
            t.processing_ms == clamp_u32(elapsed_ms as int),
            t.model@ == self.model_id@,
            t.backend@ == "whisper-rs"@,
            want_segments ==> (t.segments matches Some(v) && v@.len() == raw@.len() && forall|
                i: int,
            | 0 <= i < raw@.len() ==> segment_from(raw@[i], #[trigger] v@[i])),
            !want_segments ==> t.segments is None,
    {
        let joined = join_texts(raw);
        let text = trim_whitespace(joined.as_str());
        let language = match lang {
            Some(l) => String::from_str(l),
            None => String::from_str("und"),
        };
        let segments = if want_segments {
            Some(timed_segments(raw))
        } else {
            None
        };
        Transcript {
            text,
            language,
            duration_ms: duration_ms_from_samples(sample_count),
            processing_ms: saturating_ms(elapsed_ms),
            model: self.model_id.clone(),
            backend: "whisper-rs",
            segments,
        }
    }
}

} // verus!
