use inference_core::backend::SttError;
use inference_core::whisper::{
    coreml_sidecar_path, encoder_dir_name, invalid_model_path, join_path,
    ms_from_centiseconds, model_directory, model_id_from_stem, segment_out_of_range,
    whisper_error, RawSegment, WhisperModel, WhisperStep,
};

#[test]
fn coreml_sidecar_path_uses_encoder_mlmodelc_suffix() {
    let p = coreml_sidecar_path("/models/ggml-large-v3-turbo.bin");
    assert_eq!(p, "/models/ggml-large-v3-turbo-encoder.mlmodelc");
}

#[test]
fn coreml_sidecar_path_handles_no_parent() {
    let p = coreml_sidecar_path("ggml-tiny.bin");
    assert_eq!(p, "ggml-tiny-encoder.mlmodelc");
}

#[test]
fn coreml_sidecar_path_of_root_uses_current_dir() {
    assert_eq!(coreml_sidecar_path("/"), "./-encoder.mlmodelc");
}

#[test]
fn encoder_parts() {
    assert_eq!(encoder_dir_name(Some("m".to_string())), "m-encoder.mlmodelc");
    assert_eq!(encoder_dir_name(None), "-encoder.mlmodelc");
    assert_eq!(model_directory(None), ".");
    assert_eq!(model_directory(Some("/a".to_string())), "/a");
    assert_eq!(model_id_from_stem(None), "whisper");
}

#[test]
fn describe_names_model_after_stem() {
    let m = WhisperModel::describe("/models/ggml-base.en.bin", true, false);
    assert_eq!(m.model_id, "ggml-base.en");
    assert_eq!(m.model_path, "/models/ggml-base.en.bin");
    assert!(m.coreml_enabled);
    let m2 = WhisperModel::describe("/models/x.bin", true, true);
    assert!(!m2.coreml_enabled);
    let m3 = WhisperModel::describe("/models/x.bin", false, false);
    assert!(!m3.coreml_enabled);
    let m4 = WhisperModel::describe("/", false, false);
    assert_eq!(m4.model_id, "whisper");
}

#[test]
fn model_info_of_whisper() {
    let m = WhisperModel::describe("/models/ggml-tiny.bin", true, false);
    let info = m.model_info();
    assert_eq!(info.id, "ggml-tiny");
    assert_eq!(info.kind, "stt");
    assert_eq!(info.backend, "whisper-rs");
    assert_eq!(info.path, "/models/ggml-tiny.bin");
    assert!(info.coreml);
    assert!(info.loaded);
}

#[test]
fn centiseconds_to_milliseconds() {
    assert_eq!(ms_from_centiseconds(-5), 0);
    assert_eq!(ms_from_centiseconds(0), 0);
    assert_eq!(ms_from_centiseconds(123), 1230);
    assert_eq!(ms_from_centiseconds(429_496_729), 4_294_967_290);
    assert_eq!(ms_from_centiseconds(429_496_730), u32::MAX);
    assert_eq!(ms_from_centiseconds(i64::MAX), u32::MAX);
}

#[test]
fn timestamps_keep_order_on_values() {
    let pairs = [(-3i64, 2i64), (5, 5), (100, 429_496_730), (0, i64::MAX)];
    for (a, b) in pairs {
        assert!(ms_from_centiseconds(a) <= ms_from_centiseconds(b));
    }
}

fn raw(text: &str, a: i64, b: i64) -> RawSegment {
    RawSegment { text: text.to_string(), start_cs: a, end_cs: b }
}

#[test]
fn transcript_joins_and_trims_segments() {
    let m = WhisperModel::describe("/models/ggml-tiny.bin", false, false);
    let segs = vec![raw(" ciao mondo,", 0, 150), raw(" questo è un test. \n", 150, 300)];
    let t = m.transcript(&segs, Some("it"), false, 32_000, 1234);
    assert_eq!(t.text, "ciao mondo, questo è un test.");
    assert_eq!(t.language, "it");
    assert_eq!(t.duration_ms, 2000);
    assert_eq!(t.processing_ms, 1234);
    assert_eq!(t.model, "ggml-tiny");
    assert_eq!(t.backend, "whisper-rs");
    assert!(t.segments.is_none());
}

#[test]
fn transcript_keeps_timed_segments_when_asked() {
    let m = WhisperModel::describe("/models/ggml-tiny.bin", false, false);
    let segs = vec![raw(" a", 0, 150), raw(" b", 150, 300)];
    let t = m.transcript(&segs, None, true, 0, u128::MAX);
    assert_eq!(t.language, "und");
    assert_eq!(t.processing_ms, u32::MAX);
    assert_eq!(t.text, "a b");
    let s = t.segments.unwrap();
    assert_eq!(s.len(), 2);
    assert_eq!((s[0].start_ms, s[0].end_ms, s[0].text.as_str()), (0, 1500, " a"));
    assert_eq!((s[1].start_ms, s[1].end_ms, s[1].text.as_str()), (1500, 3000, " b"));
}

#[test]
fn transcript_of_nothing_is_empty() {
    let m = WhisperModel::describe("m.bin", false, false);
    let t = m.transcript(&Vec::new(), None, true, 0, 0);
    assert_eq!(t.text, "");
    assert_eq!(t.segments.unwrap().len(), 0);
    let t2 = m.transcript(&vec![raw(" \u{3000}\t", 0, 1)], None, false, 0, 0);
    assert_eq!(t2.text, "");
}

#[test]
fn whisper_error_texts() {
    match whisper_error(WhisperStep::LoadModel, "no file") {
        SttError::Whisper(m) => assert_eq!(m, "load model: no file"),
        other => panic!("{other:?}"),
    }
    match whisper_error(WhisperStep::Full, "x") {
        SttError::Whisper(m) => assert_eq!(m, "full: x"),
        other => panic!("{other:?}"),
    }
    match segment_out_of_range(7) {
        SttError::Whisper(m) => assert_eq!(m, "segment 7 out of range"),
        other => panic!("{other:?}"),
    }
    match invalid_model_path() {
        SttError::Internal(m) => assert_eq!(m, "model path not valid UTF-8"),
        other => panic!("{other:?}"),
    }
}

#[test]
fn join_matches_std() {
    for (b, n) in [("", "x"), ("/a", "x"), ("/a/", "x"), ("a", "/abs"), (".", "x"), ("a", "")] {
        let expected = std::path::Path::new(b).join(n).to_string_lossy().into_owned();
        assert_eq!(join_path(b, n), expected, "{b:?} {n:?}");
    }
}
