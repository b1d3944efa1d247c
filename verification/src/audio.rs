//! Admission of WAV input: the header is read with `hound`, then the
//! sample rate, channel count and sample encoding are checked before any
//! sample is decoded, and the route the decoded samples take (down-mix,
//! resampling) is decided.

use vstd::prelude::*;
use crate::backend::{SttError, SttErrorView};
use crate::text::{decimal, decimal_string};

verus! {

/// The sample rate that transcription expects.
pub const TARGET_RATE: u32 = 16000;
/// The lowest sample rate accepted.
pub const MIN_RATE: u32 = 8000;
/// The highest sample rate accepted.
pub const MAX_RATE: u32 = 96000;
/// The most channels accepted.
pub const MAX_CHANNELS: u16 = 2;

/// How samples are stored in a WAV file.
#[derive(Debug, Clone, Copy, PartialEq, Eq)]
pub enum SampleFormat {
    Float,
    Int,
}

/// The header facts of a WAV file.
#[derive(Debug, Clone, Copy)]
pub struct WavFormat {
    pub channels: u16,
    pub sample_rate: u32,
    pub bits_per_sample: u16,
    pub sample_format: SampleFormat,
}

/// What `hound::WavReader::new` makes of `bytes`: on success the channel
/// count, sample rate, bits per sample and whether samples are floats, as its
/// `spec()` reports them; on failure the text of the error.
pub uninterp spec fn wav_header(bytes: Seq<u8>) -> Result<(u16, u32, u16, bool), Seq<char>>;

/// Reads the header of an in-memory WAV file with `hound::WavReader::new`
/// and reports `WavReader::spec`. The result is claimed to be `wav_header`
/// of the bytes: the header parse depends on nothing but them, since an
/// in-memory cursor does no system I/O.
#[verifier::external_body]
fn read_wav_header(bytes: &[u8]) -> (r: Result<WavFormat, String>)
    ensures
        match r {
            Ok(f) => wav_header(bytes@) == Ok::<(u16, u32, u16, bool), Seq<char>>(
                (f.channels, f.sample_rate, f.bits_per_sample, f.sample_format is Float),
            ),
            Err(e) => wav_header(bytes@) == Err::<(u16, u32, u16, bool), Seq<char>>(e@),
        },
{
    let spec = match hound::WavReader::new(std::io::Cursor::new(bytes)) {
        Ok(reader) => reader.spec(),
        Err(e) => return Err(e.to_string()),
    };
    let sample_format = match spec.sample_format {
        hound::SampleFormat::Float => SampleFormat::Float,
        hound::SampleFormat::Int => SampleFormat::Int,
    };
    let (channels, sample_rate, bits_per_sample) = (spec.channels, spec.sample_rate, spec.bits_per_sample);
    Ok(WavFormat { channels, sample_rate, bits_per_sample, sample_format })
}

/// The error for a sample rate outside the accepted range.
pub open spec fn rate_error(rate: u32) -> SttErrorView {
    SttErrorView::AudioUnsupported(
        "sample rate "@ + decimal(rate as nat) + " outside [8000, 96000]"@,
    )
}

/// The error for a channel count outside the accepted range.
pub open spec fn channels_error(channels: u16) -> SttErrorView {
    SttErrorView::AudioUnsupported("channels "@ + decimal(channels as nat) + " not in [1, 2]"@)
}

/// The first header check that `f` fails, if any: the sample rate must lie
/// in `[MIN_RATE, MAX_RATE]`, then the channel count in `[1, MAX_CHANNELS]`.
pub open spec fn format_problem(f: WavFormat) -> Option<SttErrorView> {
    if f.sample_rate < MIN_RATE || f.sample_rate > MAX_RATE {
        Some(rate_error(f.sample_rate))
    } else if f.channels == 0 || f.channels > MAX_CHANNELS {
        Some(channels_error(f.channels))
    } else {
        None
    }
}

fn surround(before: &str, n: u128, after: &str) -> (r: String)
    ensures
        r@ == before@ + decimal(n as nat) + after@,
{
    let mut r = String::from_str(before);
    let digits = decimal_string(n);
    r.append(digits.as_str());
    r.append(after);
    r
}

/// Checks the sample rate and channel count of a WAV header.
pub fn check_format(f: &WavFormat) -> (r: Result<(), SttError>)
    ensures
        match format_problem(*f) {
            Some(e) => r matches Err(err) && err@ == e,
            None => r is Ok,
        },
{
    if f.sample_rate < MIN_RATE || f.sample_rate > MAX_RATE {
        return Err(
            SttError::AudioUnsupported(
                surround("sample rate ", f.sample_rate as u128, " outside [8000, 96000]"),
            ),
        );
    }
    if f.channels == 0 || f.channels > MAX_CHANNELS {
        return Err(
            SttError::AudioUnsupported(surround("channels ", f.channels as u128, " not in [1, 2]")),
        );
    }
    Ok(())
}

/// Reads the header of a WAV file held in memory and checks that its sample
/// rate and channel count are accepted. A header that `hound` refuses is
/// `AudioDecode` with hound's error text.
pub fn open_wav(bytes: &[u8]) -> (r: Result<WavFormat, SttError>)
    ensures
        match wav_header(bytes@) {
            Err(text) => r matches Err(e) && e@ == SttErrorView::AudioDecode(text),
            Ok((channels, rate, bits, is_float)) => match r {
                Ok(f) => f.channels == channels && f.sample_rate == rate && f.bits_per_sample
                    == bits && (f.sample_format is Float) == is_float && format_problem(f) is None,
                Err(e) => exists|f: WavFormat|
                    f.channels == channels && f.sample_rate == rate && f.bits_per_sample
                        == bits && (f.sample_format is Float) == is_float && format_problem(f)
                        == Some(e@),
            },
        },
{
    match read_wav_header(bytes) {
        Err(text) => Err(SttError::AudioDecode(text)),
        Ok(f) => match check_format(&f) {
            Ok(()) => Ok(f),
            Err(e) => Err(e),
        },
    }
}

/// The full-scale value of integer samples of `bits` bits, by which they are
/// divided to bring them into `[-1, 1]`.
pub open spec fn full_scale(bits: u16) -> Option<u32> {
    if bits == 8 {
        Some(127)
    } else if bits == 16 {
        Some(32767)
    } else if bits == 24 {
        Some(8388607)
    } else if bits == 32 {
        Some(2147483647)
    } else {
        None
    }
}

/// The full-scale value of integer samples of `bits` bits; any width other
/// than 8, 16, 24 or 32 bits is `AudioUnsupported`.
pub fn int_full_scale(bits: u16) -> (r: Result<u32, SttError>)
    ensures
        match full_scale(bits) {
            Some(m) => r == Ok::<u32, SttError>(m),
            None => r matches Err(e) && e@ == SttErrorView::AudioUnsupported(
                "unsupported int bits: "@ + decimal(bits as nat),
            ),
        },
{
    if bits == 8 {
        Ok(127)
    } else if bits == 16 {
        Ok(32767)
    } else if bits == 24 {
        Ok(8388607)
    } else if bits == 32 {
        Ok(2147483647)
    } else {
        let text = surround("unsupported int bits: ", bits as u128, "");
        proof {
            reveal_strlit("");
            assert(text@ =~= "unsupported int bits: "@ + decimal(bits as nat));
        }
        Err(SttError::AudioUnsupported(text))
    }
}

/// What must be done to decoded samples before transcription.
#[derive(Debug, Clone, Copy, PartialEq, Eq)]
pub struct AudioRoute {
    /// Interleaved channels are averaged into one.
    pub downmix: bool,
    /// The mono signal is resampled from this rate to `TARGET_RATE`.
    pub resample_from: Option<u32>,
}

/// The route for `sample_count` decoded samples of a file with header `f`:
/// no samples at all is `AudioUnsupported("zero samples")`; otherwise
/// stereo is down-mixed and any rate other than 16 kHz is resampled.
pub fn audio_route(f: &WavFormat, sample_count: usize) -> (r: Result<AudioRoute, SttError>)
    ensures
        sample_count == 0 ==> (r matches Err(e) && e@ == SttErrorView::AudioUnsupported(
            "zero samples"@,
        )),
        sample_count > 0 ==> (r matches Ok(route) && route.downmix == (f.channels != 1)
            && route.resample_from == (if f.sample_rate == TARGET_RATE {
            None::<u32>
        } else {
            Some(f.sample_rate)
        })),
{
    if sample_count == 0 {
        return Err(SttError::AudioUnsupported(String::from_str("zero samples")));
    }
    let resample_from = if f.sample_rate == TARGET_RATE {
        None
    } else {
        Some(f.sample_rate)
    };
    Ok(AudioRoute { downmix: f.channels != 1, resample_from })
}

} // verus!
