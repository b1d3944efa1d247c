//! A backend for tests and CI: it never loads a model and answers with a
//! fixed text that names the number of samples it was given.

use vstd::prelude::*;
use crate::backend::{
    clamp_u32, duration_ms_from_samples, saturating_ms, ModelInfo, SttError, SttOptions,
    Transcript,
};
use crate::text::{decimal, decimal_string, parse_u64, parsed_u64};

verus! {

/// The stub backend; it may be asked to wait before answering, to stand for
/// slow inference.
pub struct StubBackend {
    sleep_ms: u64,
}

/// The text the stub answers for `n` samples: `[stub] <n> samples`.
pub open spec fn stub_text(n: nat) -> Seq<char> {
    "[stub] "@ + decimal(n) + " samples"@
}

/// Whether `t` is the stub's transcript of `n` samples after `elapsed_ms`
/// milliseconds.
pub open spec fn stub_transcript(t: Transcript, n: nat, elapsed_ms: int) -> bool {
    &&& t.text@ == stub_text(n)
    &&& t.language@ == "stub"@
    &&& t.duration_ms == clamp_u32(((n * 1000) / 16000) as int)
    &&& t.processing_ms == clamp_u32(elapsed_ms)
    &&& t.model@ == "stub"@
    &&& t.backend@ == "stub"@
    &&& t.segments is None
}

/// The stub never fails, ignores the options, and answers two clips of the
/// same length alike in every field but the time spent.
pub proof fn law_stub_depends_on_length_only(
    t1: Transcript,
    t2: Transcript,
    n: nat,
    elapsed1: int,
    elapsed2: int,
)
    requires
        stub_transcript(t1, n, elapsed1),
        stub_transcript(t2, n, elapsed2),
    ensures
        t1.text@ == t2.text@,
        t1.language@ == t2.language@,
        t1.duration_ms == t2.duration_ms,
        t1.model@ == t2.model@,
        t1.backend@ == t2.backend@,
        t1.segments is None && t2.segments is None,
{
}

impl StubBackend {
    /// A stub that waits the number of milliseconds given by `sleep_setting`
    /// (the value of the setting that asks for a delay, if set); a setting
    /// that is absent or not a decimal `u64` means no wait.
    pub fn new(sleep_setting: Option<&str>) -> (r: StubBackend)
        ensures
            r.sleep_ms() == match sleep_setting {
                Some(s) => match parsed_u64(s@) {
                    Some(v) => v,
                    None => 0,
                },
                None => 0,
            },
    {
        let ms: u64 = match sleep_setting {
            Some(s) => match parse_u64(s) {
                Some(v) => v,
                None => 0,
            },
            None => 0,
        };
        StubBackend { sleep_ms: ms }
    }

    /// How long the stub waits before answering, in milliseconds.
    pub closed spec fn sleep_ms(&self) -> u64 {
        self.sleep_ms
    }

    /// How long the stub waits before answering, in milliseconds.
    pub fn sleep_millis(&self) -> (r: u64)
        ensures
            r == self.sleep_ms(),
    {
        self.sleep_ms
    }

    /// The stub's transcript of `sample_count` samples, given the time spent
    /// so far in milliseconds. It never fails and ignores the options: no
    /// segments are given even when asked for.
    pub fn transcribe(&self, sample_count: usize, _opts: &SttOptions, elapsed_ms: u128) -> (r:
        Result<Transcript, SttError>)
        requires
            sample_count * 1000 <= usize::MAX,
        ensures
            r matches Ok(t) && stub_transcript(t, sample_count as nat, elapsed_ms as int),
    {
        let mut text = String::from_str("[stub] ");
        let digits = decimal_string(sample_count as u128);
        text.append(digits.as_str());
        text.append(" samples");
        Ok(
            Transcript {
                text,
                language: String::from_str("stub"),
                duration_ms: duration_ms_from_samples(sample_count),
                processing_ms: saturating_ms(elapsed_ms),
                model: String::from_str("stub"),
                backend: "stub",
                segments: None,
            },
        )
    }

    /// The stub's model description.
    pub fn model_info(&self) -> (r: ModelInfo)
        ensures
            r.id@ == "stub"@,
            r.kind@ == "stt"@,
            r.backend@ == "stub"@,
            r.path@ == "(none)"@,
            !r.coreml,
            r.loaded,
    {
        ModelInfo {
            id: String::from_str("stub"),
            kind: "stt",
            backend: "stub",
            path: String::from_str("(none)"),
            coreml: false,
            loaded: true,
        }
    }
}

} // verus!
