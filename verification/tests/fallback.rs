use voice_to_text::corrector::{LlmCorrector, LlmError, MockCorrector};
use voice_to_text::fallback::FallbackCorrector;

#[test]
fn passes_through_success() {
    let corrector = FallbackCorrector::new(MockCorrector::ok("แก้ไขแล้ว"));
    let result = corrector.correct("ผิด", None).unwrap();
    assert_eq!(result, "แก้ไขแล้ว");
}

#[test]
fn returns_raw_on_request_error() {
    let corrector =
        FallbackCorrector::new(MockCorrector::err(LlmError::Request("connection refused".into())));
    let result = corrector.correct("ข้อความเดิม", None).unwrap();
    assert_eq!(result, "ข้อความเดิม");
}

#[test]
fn returns_raw_on_timeout() {
    let corrector = FallbackCorrector::new(MockCorrector::err(LlmError::Timeout));
    let result = corrector.correct("ข้อความเดิม", None).unwrap();
    assert_eq!(result, "ข้อความเดิม");
}

#[test]
fn returns_raw_on_parse_error() {
    let corrector = FallbackCorrector::new(MockCorrector::err(LlmError::Parse("bad json".into())));
    let result = corrector.correct("ข้อความเดิม", None).unwrap();
    assert_eq!(result, "ข้อความเดิม");
}

#[test]
fn returns_raw_on_empty_response() {
    let corrector = FallbackCorrector::new(MockCorrector::err(LlmError::EmptyResponse));
    let result = corrector.correct("ข้อความเดิม", None).unwrap();
    assert_eq!(result, "ข้อความเดิม");
}

#[test]
fn never_returns_err() {
    let corrector = FallbackCorrector::new(MockCorrector::err(LlmError::Timeout));
    // Must always be Ok(_), even on failure
    assert!(corrector.correct("test", None).is_ok());
}

/// The corrector capability is usable behind a trait object.
#[test]
fn fallback_is_object_safe() {
    let inner = MockCorrector::ok("ok");
    let _: Box<dyn LlmCorrector> = Box::new(FallbackCorrector::new(inner));
}
