use voice_to_text::config::AppConfig;
use voice_to_text::state::{AppState, PipelineState};

// ---- PipelineState::is_busy ---

#[test]
fn idle_is_not_busy() {
    assert!(!PipelineState::Idle.is_busy());
}

#[test]
fn recording_is_busy() {
    assert!(PipelineState::Recording.is_busy());
}

#[test]
fn transcribing_is_busy() {
    assert!(PipelineState::Transcribing.is_busy());
}

#[test]
fn correcting_is_busy() {
    assert!(PipelineState::Correcting.is_busy());
}

#[test]
fn result_is_not_busy() {
    assert!(!PipelineState::Result.is_busy());
}

#[test]
fn error_is_not_busy() {
    assert!(!PipelineState::Error.is_busy());
}

// ---- PipelineState::label ---

#[test]
fn label_idle() {
    assert_eq!(PipelineState::Idle.label(), "Idle");
}

#[test]
fn label_recording() {
    assert_eq!(PipelineState::Recording.label(), "Recording");
}

#[test]
fn label_transcribing() {
    assert_eq!(PipelineState::Transcribing.label(), "Transcribing");
}

#[test]
fn label_correcting() {
    assert_eq!(PipelineState::Correcting.label(), "Correcting");
}

#[test]
fn label_result() {
    assert_eq!(PipelineState::Result.label(), "Done");
}

#[test]
fn label_error() {
    assert_eq!(PipelineState::Error.label(), "Error");
}

// ---- Default ---

#[test]
fn default_pipeline_state_is_idle() {
    assert_eq!(PipelineState::default(), PipelineState::Idle);
}

// ---- AppState ---

#[test]
fn app_state_default_pipeline_is_idle() {
    let state = AppState::new(AppConfig::default());
    assert_eq!(state.pipeline, PipelineState::Idle);
    assert!(state.last_text.is_none());
    assert!(state.error_message.is_none());
    assert_eq!(state.recording_ms, 0);
}
