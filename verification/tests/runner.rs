use voice_to_text::config::{AppConfig, OperatingMode};
use voice_to_text::corrector::{LlmError, MockCorrector};
use voice_to_text::hotkey::HotkeyEvent;
use voice_to_text::runner::PipelineOrchestrator;
use voice_to_text::state::PipelineState;
use voice_to_text::stt::MockSttEngine;

/// 1 second of non-silent audio at 16 kHz (0.3 of full scale).
fn one_second_of_audio() -> Vec<i16> {
    vec![3_000i16; 16_000]
}

fn make_orchestrator(
    config: AppConfig,
    samples: &[i16],
    llm: MockCorrector,
) -> PipelineOrchestrator<MockSttEngine, MockCorrector> {
    let stt = MockSttEngine::ok("สวัสดี");
    let mut orc = PipelineOrchestrator::new(config, stt, llm);
    orc.push_audio(samples);
    orc
}

/// A press moves the pipeline to the recording phase.
#[test]
fn pressed_sets_recording_state() {
    let config = AppConfig::default();
    let mut orc = make_orchestrator(config, &one_second_of_audio(), MockCorrector::ok("fixed"));

    let injected = orc.handle_event(HotkeyEvent::PushToTalkPressed, 1_000);
    assert!(injected.is_none());
    assert_eq!(orc.state().pipeline, PipelineState::Recording);
}

/// Full press + release in fast mode reaches the result phase with the raw
/// STT text and the corrector never invoked.
#[test]
fn fast_mode_reaches_result_state() {
    let mut config = AppConfig::default();
    config.operating_mode = OperatingMode::Fast;

    let mut orc = make_orchestrator(
        config,
        &one_second_of_audio(),
        MockCorrector::ok("should not be called"),
    );

    orc.handle_event(HotkeyEvent::PushToTalkPressed, 1_000);
    orc.push_audio(&one_second_of_audio());
    let injected = orc.handle_event(HotkeyEvent::PushToTalkReleased, 2_000);

    assert_eq!(orc.state().pipeline, PipelineState::Result);
    // Fast mode injects the raw STT text directly.
    assert_eq!(orc.state().last_text.as_deref(), Some("สวัสดี"));
    assert_eq!(injected.as_deref(), Some("สวัสดี"));
}

/// Standard mode with a successful corrector injects the corrected text and
/// the context window now holds that sentence.
#[test]
fn standard_mode_llm_ok_injects_corrected_text() {
    let mut config = AppConfig::default();
    config.operating_mode = OperatingMode::Standard;

    let mut orc = make_orchestrator(config, &one_second_of_audio(), MockCorrector::ok("แก้ไขแล้ว"));

    orc.handle_event(HotkeyEvent::PushToTalkPressed, 1_000);
    orc.push_audio(&one_second_of_audio());
    let injected = orc.handle_event(HotkeyEvent::PushToTalkReleased, 2_000);

    assert_eq!(orc.state().pipeline, PipelineState::Result);
    assert_eq!(orc.state().last_text.as_deref(), Some("แก้ไขแล้ว"));
    assert_eq!(injected.as_deref(), Some("แก้ไขแล้ว"));
}

/// When the corrector fails, the orchestrator falls back to the raw STT
/// text and still reaches the result phase, never the error phase.
#[test]
fn llm_failure_falls_back_to_raw_text() {
    let mut config = AppConfig::default();
    config.operating_mode = OperatingMode::Standard;

    let mut orc = make_orchestrator(
        config,
        &one_second_of_audio(),
        MockCorrector::err(LlmError::Timeout),
    );

    orc.handle_event(HotkeyEvent::PushToTalkPressed, 1_000);
    orc.push_audio(&one_second_of_audio());
    let injected = orc.handle_event(HotkeyEvent::PushToTalkReleased, 2_000);

    // Must reach Result (not Error) with the raw STT text.
    assert_eq!(orc.state().pipeline, PipelineState::Result);
    assert_eq!(orc.state().last_text.as_deref(), Some("สวัสดี"));
    assert_eq!(injected.as_deref(), Some("สวัสดี"));
}

/// A release with an empty drained buffer enters the error phase with a
/// non-empty message.
#[test]
fn empty_audio_on_release_sets_error_state() {
    let config = AppConfig::default();
    let stt = MockSttEngine::ok("text");
    let llm = MockCorrector::ok("fixed");
    let mut orc = PipelineOrchestrator::new(config, stt, llm);
    // Do NOT push any samples — the buffer stays empty.

    orc.handle_event(HotkeyEvent::PushToTalkPressed, 1_000);
    let injected = orc.handle_event(HotkeyEvent::PushToTalkReleased, 2_000);

    assert!(injected.is_none());
    assert_eq!(orc.state().pipeline, PipelineState::Error);
    assert!(orc.state().error_message.is_some());
    assert!(!orc.state().error_message.as_ref().unwrap().is_empty());
}

/// Visibility-toggle events are silently ignored by the state machine.
#[test]
fn toggle_visibility_is_ignored() {
    let config = AppConfig::default();
    let mut orc = make_orchestrator(config, &one_second_of_audio(), MockCorrector::ok("ok"));

    let injected = orc.handle_event(HotkeyEvent::ToggleVisibility, 1_000);

    assert!(injected.is_none());
    // State remains Idle — only ToggleVisibility was sent.
    assert_eq!(orc.state().pipeline, PipelineState::Idle);
}

/// An STT failure ends the cycle in the error phase with the cause named.
#[test]
fn stt_failure_sets_error_state() {
    let config = AppConfig::default();
    let stt = MockSttEngine::err(voice_to_text::stt::SttError::Transcription("boom".into()));
    let llm = MockCorrector::ok("fixed");
    let mut orc = PipelineOrchestrator::new(config, stt, llm);

    orc.handle_event(HotkeyEvent::PushToTalkPressed, 1_000);
    orc.push_audio(&one_second_of_audio());
    let injected = orc.handle_event(HotkeyEvent::PushToTalkReleased, 2_000);

    assert!(injected.is_none());
    assert_eq!(orc.state().pipeline, PipelineState::Error);
    let msg = orc.state().error_message.clone().unwrap();
    assert!(msg.contains("Transcription failed"), "message: {msg}");
    assert!(msg.contains("boom"), "message: {msg}");
}

/// A successful correction pushes the corrected sentence into the rolling
/// context window, visible to the next cycle's prompt.
#[test]
fn corrected_sentence_enters_the_context_window() {
    let mut config = AppConfig::default();
    config.operating_mode = OperatingMode::Context;

    let mut orc = make_orchestrator(config, &one_second_of_audio(), MockCorrector::ok("ประโยคที่แก้แล้ว"));

    orc.handle_event(HotkeyEvent::PushToTalkPressed, 1_000);
    orc.push_audio(&one_second_of_audio());
    orc.handle_event(HotkeyEvent::PushToTalkReleased, 2_000);
    assert_eq!(orc.state().pipeline, PipelineState::Result);

    // Run a second cycle; the corrector sees a context holding the sentence.
    orc.handle_event(HotkeyEvent::PushToTalkPressed, 3_000);
    orc.push_audio(&one_second_of_audio());
    orc.handle_event(HotkeyEvent::PushToTalkReleased, 4_000);
    assert_eq!(orc.state().pipeline, PipelineState::Result);
}

/// Cancel clears the buffer and forces the idle phase.
#[test]
fn cancel_returns_to_idle() {
    let config = AppConfig::default();
    let mut orc = make_orchestrator(config, &one_second_of_audio(), MockCorrector::ok("ok"));

    orc.handle_event(HotkeyEvent::PushToTalkPressed, 1_000);
    orc.push_audio(&one_second_of_audio());
    orc.cancel();

    assert_eq!(orc.state().pipeline, PipelineState::Idle);
    // A release right after cancel finds an empty buffer.
    let injected = orc.handle_event(HotkeyEvent::PushToTalkReleased, 2_000);
    assert!(injected.is_none());
    assert_eq!(orc.state().pipeline, PipelineState::Error);
}
