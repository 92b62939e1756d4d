use voice_to_text::stt::{MockSttEngine, SttEngine, SttError, MAX_AUDIO_SAMPLES, MIN_AUDIO_SAMPLES};

// --- MockSttEngine ---

#[test]
fn mock_ok_returns_configured_text() {
    let engine = MockSttEngine::ok("สวัสดีครับ");
    let audio = vec![0i16; MIN_AUDIO_SAMPLES];
    assert_eq!(engine.transcribe(&audio).unwrap(), "สวัสดีครับ");
}

#[test]
fn mock_err_returns_configured_error() {
    let engine = MockSttEngine::err(SttError::Transcription("boom".into()));
    let audio = vec![0i16; MIN_AUDIO_SAMPLES];
    let err = engine.transcribe(&audio).unwrap_err();
    assert!(matches!(err, SttError::Transcription(_)));
}

#[test]
fn mock_short_audio_returns_audio_too_short() {
    let engine = MockSttEngine::ok("text");
    let short = vec![0i16; MIN_AUDIO_SAMPLES - 1];
    let err = engine.transcribe(&short).unwrap_err();
    assert!(matches!(err, SttError::AudioTooShort));
}

#[test]
fn mock_long_audio_returns_audio_too_long() {
    let engine = MockSttEngine::ok("text");
    let long = vec![0i16; MAX_AUDIO_SAMPLES + 1];
    let err = engine.transcribe(&long).unwrap_err();
    assert!(matches!(err, SttError::AudioTooLong));
}

// --- AudioTooShort boundary ---

#[test]
fn exactly_min_audio_does_not_error_in_mock() {
    let engine = MockSttEngine::ok("ok");
    let audio = vec![0i16; MIN_AUDIO_SAMPLES];
    assert!(engine.transcribe(&audio).is_ok());
}

#[test]
fn one_below_min_audio_errors_in_mock() {
    let engine = MockSttEngine::ok("ok");
    let audio = vec![0i16; MIN_AUDIO_SAMPLES - 1];
    assert!(matches!(engine.transcribe(&audio).unwrap_err(), SttError::AudioTooShort));
}

// --- SttError messages ---

#[test]
fn stt_error_display_model_not_found() {
    let e = SttError::ModelNotFound("/some/path.bin".into());
    assert!(e.message().contains("/some/path.bin"));
}

#[test]
fn stt_error_display_audio_too_short() {
    let e = SttError::AudioTooShort;
    assert!(e.message().contains("short"));
}

/// The engine capability is usable behind a trait object.
#[test]
fn box_dyn_stt_engine_compiles() {
    let engine: Box<dyn SttEngine> = Box::new(MockSttEngine::ok("ok"));
    let audio = vec![0i16; MIN_AUDIO_SAMPLES];
    let _ = engine.transcribe(&audio);
}
