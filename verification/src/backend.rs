//! The speech-to-text vocabulary shared by every backend: errors, options,
//! transcripts and model descriptions.

use vstd::prelude::*;

verus! {

/// Why a transcription request failed.
#[derive(Debug, Clone)]
pub enum SttError {
    AudioDecode(String),
    AudioUnsupported(String),
    Resample(String),
    ModelNotLoaded,
    Busy,
    Whisper(String),
    Internal(String),
}

/// An `SttError` with its text taken by value.
pub enum SttErrorView {
    AudioDecode(Seq<char>),
    AudioUnsupported(Seq<char>),
    Resample(Seq<char>),
    ModelNotLoaded,
    Busy,
    Whisper(Seq<char>),
    Internal(Seq<char>),
}

impl View for SttError {
    type V = SttErrorView;

    open spec fn view(&self) -> SttErrorView {
        match self {
            SttError::AudioDecode(s) => SttErrorView::AudioDecode(s@),
            SttError::AudioUnsupported(s) => SttErrorView::AudioUnsupported(s@),
            SttError::Resample(s) => SttErrorView::Resample(s@),
            SttError::ModelNotLoaded => SttErrorView::ModelNotLoaded,
            SttError::Busy => SttErrorView::Busy,
            SttError::Whisper(s) => SttErrorView::Whisper(s@),
            SttError::Internal(s) => SttErrorView::Internal(s@),
        }
    }
}

/// The human-readable description of an error.
pub open spec fn error_text(e: SttErrorView) -> Seq<char> {
    match e {
        SttErrorView::AudioDecode(s) => "audio decode failed: "@ + s,
        SttErrorView::AudioUnsupported(s) => "unsupported audio: "@ + s,
        SttErrorView::Resample(s) => "resample failed: "@ + s,
        SttErrorView::ModelNotLoaded => "model not loaded"@,
        SttErrorView::Busy => "backend busy (mutex timeout)"@,
        SttErrorView::Whisper(s) => "whisper inference failed: "@ + s,
        SttErrorView::Internal(s) => "internal error: "@ + s,
    }
}

fn prefixed(prefix: &str, detail: &String) -> (r: String)
    ensures
        r@ == prefix@ + detail@,
{
    let mut r = String::from_str(prefix);
    r.append(detail.as_str());
    r
}

impl SttError {
    /// The human-readable description of this error.
    pub fn message(&self) -> (r: String)
        ensures
            r@ == error_text(self@),
    {
        match self {
            SttError::AudioDecode(s) => prefixed("audio decode failed: ", s),
            SttError::AudioUnsupported(s) => prefixed("unsupported audio: ", s),
            SttError::Resample(s) => prefixed("resample failed: ", s),
            SttError::ModelNotLoaded => String::from_str("model not loaded"),
            SttError::Busy => String::from_str("backend busy (mutex timeout)"),
            SttError::Whisper(s) => prefixed("whisper inference failed: ", s),
            SttError::Internal(s) => prefixed("internal error: ", s),
        }
    }
}

/// What a caller asks of a transcription.
#[derive(Debug, Clone)]
pub struct SttOptions {
    pub language: Option<String>,
    pub translate: bool,
    pub want_segments: bool,
}

impl Default for SttOptions {
    fn default() -> (r: SttOptions)
        ensures
            r.language is None,
            !r.translate,
            !r.want_segments,
    {
        SttOptions { language: None, translate: false, want_segments: false }
    }
}

/// A timed piece of a transcript.
#[derive(Debug, Clone)]
pub struct Segment {
    pub start_ms: u32,
    pub end_ms: u32,
    pub text: String,
}

/// The result of transcribing one audio clip.
#[derive(Debug, Clone)]
pub struct Transcript {
    pub text: String,
    pub language: String,
    pub duration_ms: u32,
    pub processing_ms: u32,
    pub model: String,
    pub backend: &'static str,
    pub segments: Option<Vec<Segment>>,
}

/// A description of the model behind a backend.
#[derive(Debug, Clone)]
pub struct ModelInfo {
    pub id: String,
    pub kind: &'static str,
    pub backend: &'static str,
    pub path: String,
    pub coreml: bool,
    pub loaded: bool,
}

/// The sample rate of every clip handed to a backend.
pub const SAMPLE_RATE: usize = 16000;

/// `x`, or `u32::MAX` where `x` does not fit in a `u32`.
pub open spec fn clamp_u32(x: int) -> u32 {
    if x <= u32::MAX { x as u32 } else { u32::MAX }
}

/// The length in milliseconds of `sample_count` samples at 16 kHz, rounded
/// down, or `u32::MAX` where that does not fit.
pub fn duration_ms_from_samples(sample_count: usize) -> (r: u32)
    requires
        sample_count * 1000 <= usize::MAX,
    ensures
        r == clamp_u32((sample_count * 1000) / 16000),
{
    let ms: usize = sample_count * 1000 / SAMPLE_RATE;
    if ms <= u32::MAX as usize {
        ms as u32
    } else {
        u32::MAX
    }
}

/// An elapsed time in milliseconds as a `u32`, saturating at `u32::MAX`.
pub fn saturating_ms(elapsed_ms: u128) -> (r: u32)
    ensures
        r == clamp_u32(elapsed_ms as int),
{
    if elapsed_ms <= u32::MAX as u128 {
        elapsed_ms as u32
    } else {
        u32::MAX
    }
}

} // verus!
