use voice_to_text::corrector::{extract_correction, LlmError};
use voice_to_text::inject::{InjectError, TextInjector};

// --- extract_correction: the verified tail of an HTTP corrector ---

#[test]
fn missing_content_is_an_empty_response() {
    assert_eq!(extract_correction(None), Err(LlmError::EmptyResponse));
}

#[test]
fn blank_content_is_an_empty_response() {
    assert_eq!(extract_correction(Some("   \n\t ".to_string())), Err(LlmError::EmptyResponse));
}

#[test]
fn content_is_trimmed() {
    assert_eq!(extract_correction(Some("  สวัสดีครับ \n".to_string())), Ok("สวัสดีครับ".to_string()));
}

#[test]
fn clean_content_passes_through() {
    assert_eq!(extract_correction(Some("done".to_string())), Ok("done".to_string()));
}

// --- Error messages ---

#[test]
fn llm_error_messages_name_the_cause() {
    assert!(LlmError::Request("refused".into()).message().contains("refused"));
    assert!(LlmError::Timeout.message().contains("timed out"));
    assert!(LlmError::Parse("bad json".into()).message().contains("bad json"));
    assert!(LlmError::EmptyResponse.message().contains("empty"));
}

#[test]
fn inject_error_messages_name_the_cause() {
    assert!(InjectError::ClipboardAccess("denied".into()).message().contains("denied"));
    assert!(InjectError::ClipboardSet("denied".into()).message().contains("clipboard"));
    assert!(InjectError::KeySimulation("no display".into()).message().contains("no display"));
    assert!(InjectError::TargetWindowLost.message().contains("focus"));
    assert!(InjectError::Validation("bad".into()).message().contains("validation"));
}

// --- TextInjector timing defaults ---

#[test]
fn injector_defaults_match_the_recommended_delays() {
    let inj = TextInjector::new();
    assert_eq!(inj.delay_ms, 50);
    assert_eq!(inj.restore_delay_ms, 100);
}
