use inference_core::audio::{
    audio_route, check_format, int_full_scale, open_wav, AudioRoute, SampleFormat, WavFormat,
};
use inference_core::backend::SttError;

fn synth_wav_i16(samples: &[i16], channels: u16, rate: u32) -> Vec<u8> {
    let spec = hound::WavSpec {
        channels,
        sample_rate: rate,
        bits_per_sample: 16,
        sample_format: hound::SampleFormat::Int,
    };
    let mut buf = Vec::new();
    {
        let mut writer = hound::WavWriter::new(std::io::Cursor::new(&mut buf), spec).unwrap();
        for s in samples {
            writer.write_sample(*s).unwrap();
        }
        writer.finalize().unwrap();
    }
    buf
}

fn format(channels: u16, rate: u32) -> WavFormat {
    WavFormat { channels, sample_rate: rate, bits_per_sample: 16, sample_format: SampleFormat::Int }
}

#[test]
fn rejects_zero_channel_wav_at_header_level() {
    // hound rejects channels=0 at write time; instead test sample-rate out of range:
    let s: Vec<i16> = vec![0; 10];
    let wav = synth_wav_i16(&s, 1, 4_000); // below MIN_RATE
    let err = open_wav(&wav).unwrap_err();
    match err {
        SttError::AudioUnsupported(_) => {}
        other => panic!("unexpected error: {other:?}"),
    }
}

#[test]
fn rejects_garbage_bytes_as_bad_audio() {
    let err = open_wav(b"not a wav file").unwrap_err();
    match err {
        SttError::AudioDecode(_) => {}
        other => panic!("unexpected error: {other:?}"),
    }
}

#[test]
fn garbage_error_carries_hound_text() {
    match open_wav(b"not a wav file").unwrap_err() {
        SttError::AudioDecode(text) => assert!(text.starts_with("Ill-formed WAVE file"), "{text}"),
        other => panic!("unexpected error: {other:?}"),
    }
}

#[test]
fn reads_header_of_mono_16k() {
    let wav = synth_wav_i16(&vec![0; 1000], 1, 16_000);
    let f = open_wav(&wav).unwrap();
    assert_eq!(f.channels, 1);
    assert_eq!(f.sample_rate, 16_000);
    assert_eq!(f.bits_per_sample, 16);
    assert_eq!(f.sample_format, SampleFormat::Int);
}

#[test]
fn reads_header_of_stereo_44k() {
    let wav = synth_wav_i16(&vec![0; 200], 2, 44_100);
    let f = open_wav(&wav).unwrap();
    assert_eq!(f.channels, 2);
    assert_eq!(f.sample_rate, 44_100);
}

#[test]
fn rejects_rate_with_message() {
    let wav = synth_wav_i16(&vec![0; 10], 1, 4_000);
    match open_wav(&wav).unwrap_err() {
        SttError::AudioUnsupported(m) => assert_eq!(m, "sample rate 4000 outside [8000, 96000]"),
        other => panic!("unexpected error: {other:?}"),
    }
}

#[test]
fn rejects_three_channels() {
    let wav = synth_wav_i16(&vec![0; 30], 3, 16_000);
    match open_wav(&wav).unwrap_err() {
        SttError::AudioUnsupported(m) => assert_eq!(m, "channels 3 not in [1, 2]"),
        other => panic!("unexpected error: {other:?}"),
    }
}

#[test]
fn rate_bounds_are_inclusive() {
    assert!(check_format(&format(1, 8_000)).is_ok());
    assert!(check_format(&format(2, 96_000)).is_ok());
    assert!(check_format(&format(1, 7_999)).is_err());
    assert!(check_format(&format(1, 96_001)).is_err());
    match check_format(&format(0, 16_000)).unwrap_err() {
        SttError::AudioUnsupported(m) => assert_eq!(m, "channels 0 not in [1, 2]"),
        other => panic!("unexpected error: {other:?}"),
    }
}

#[test]
fn rate_is_checked_before_channels() {
    match check_format(&format(5, 100)).unwrap_err() {
        SttError::AudioUnsupported(m) => assert_eq!(m, "sample rate 100 outside [8000, 96000]"),
        other => panic!("unexpected error: {other:?}"),
    }
}

#[test]
fn full_scale_of_each_width() {
    assert_eq!(int_full_scale(8).unwrap(), 127);
    assert_eq!(int_full_scale(16).unwrap(), 32_767);
    assert_eq!(int_full_scale(24).unwrap(), 8_388_607);
    assert_eq!(int_full_scale(32).unwrap(), 2_147_483_647);
    match int_full_scale(12).unwrap_err() {
        SttError::AudioUnsupported(m) => assert_eq!(m, "unsupported int bits: 12"),
        other => panic!("unexpected error: {other:?}"),
    }
}

#[test]
fn route_of_decoded_samples() {
    match audio_route(&format(1, 16_000), 0).unwrap_err() {
        SttError::AudioUnsupported(m) => assert_eq!(m, "zero samples"),
        other => panic!("unexpected error: {other:?}"),
    }
    assert_eq!(
        audio_route(&format(1, 16_000), 10).unwrap(),
        AudioRoute { downmix: false, resample_from: None }
    );
    assert_eq!(
        audio_route(&format(2, 44_100), 10).unwrap(),
        AudioRoute { downmix: true, resample_from: Some(44_100) }
    );
}
