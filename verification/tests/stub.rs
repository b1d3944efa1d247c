use inference_core::backend::SttOptions;
use inference_core::stub::StubBackend;

fn opts(want_segments: bool) -> SttOptions {
    SttOptions { language: None, translate: false, want_segments }
}

#[test]
fn stub_transcript_names_1600_samples() {
    let stub = StubBackend::new(None);
    let t = stub.transcribe(1600, &opts(false), 0).unwrap();
    assert!(t.text.contains("[stub] 1600 samples"), "stdout: {}", t.text);
}

#[test]
fn stub_transcript_fields() {
    let stub = StubBackend::new(None);
    let t = stub.transcribe(32_000, &opts(false), 5).unwrap();
    assert_eq!(t.text, "[stub] 32000 samples");
    assert_eq!(t.language, "stub");
    assert_eq!(t.duration_ms, 2000);
    assert_eq!(t.processing_ms, 5);
    assert_eq!(t.model, "stub");
    assert_eq!(t.backend, "stub");
    assert!(t.segments.is_none());
    let t0 = stub.transcribe(0, &opts(false), u128::MAX).unwrap();
    assert_eq!(t0.text, "[stub] 0 samples");
    assert_eq!(t0.duration_ms, 0);
    assert_eq!(t0.processing_ms, u32::MAX);
    assert_eq!(stub.transcribe(15, &opts(false), 0).unwrap().duration_ms, 0);
    assert_eq!(stub.transcribe(17, &opts(false), 0).unwrap().duration_ms, 1);
}

#[test]
fn stub_sleep_setting() {
    assert_eq!(StubBackend::new(None).sleep_millis(), 0);
    assert_eq!(StubBackend::new(Some("250")).sleep_millis(), 250);
    assert_eq!(StubBackend::new(Some("+7")).sleep_millis(), 7);
    assert_eq!(StubBackend::new(Some("")).sleep_millis(), 0);
    assert_eq!(StubBackend::new(Some("12ms")).sleep_millis(), 0);
    assert_eq!(StubBackend::new(Some("-1")).sleep_millis(), 0);
    assert_eq!(StubBackend::new(Some("18446744073709551615")).sleep_millis(), u64::MAX);
    assert_eq!(StubBackend::new(Some("18446744073709551616")).sleep_millis(), 0);
}

#[test]
fn stub_model_info() {
    let info = StubBackend::new(None).model_info();
    assert_eq!(info.id, "stub");
    assert_eq!(info.kind, "stt");
    assert_eq!(info.backend, "stub");
    assert_eq!(info.path, "(none)");
    assert!(!info.coreml);
    assert!(info.loaded);
}

#[test]
fn stub_ignores_options_and_depends_on_length_only() {
    let stub = StubBackend::new(None);
    let a = stub.transcribe(480, &opts(true), 1).unwrap();
    let b = stub.transcribe(480, &SttOptions { language: Some("it".into()), translate: true, want_segments: false }, 9).unwrap();
    assert!(a.segments.is_none());
    assert_eq!((a.text, a.language, a.duration_ms, a.model, a.backend), (b.text, b.language, b.duration_ms, b.model, b.backend));
}
