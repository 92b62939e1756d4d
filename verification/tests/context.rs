use voice_to_text::context::ContextManager;

#[test]
fn context_starts_empty() {
    let mgr = ContextManager::new();
    assert!(mgr.is_empty());
    assert_eq!(mgr.len(), 0);
    assert_eq!(mgr.build_context(), None);
}

#[test]
fn push_single_sentence_produces_context() {
    let mut mgr = ContextManager::new();
    mgr.push_sentence("สวัสดีครับ".to_string());
    let ctx = mgr.build_context().expect("context should be Some");
    assert!(ctx.contains("สวัสดีครับ"));
    assert!(ctx.contains("Previous context:"));
}

#[test]
fn rolling_window_caps_at_max_sentences() {
    let mut mgr = ContextManager::with_capacity(3, 120);
    for i in 0..6 {
        mgr.push_sentence(format!("ประโยค{}", i));
    }
    // Window must not exceed 3
    assert_eq!(mgr.len(), 3);

    let ctx = mgr.build_context().unwrap();
    // Oldest entries should be gone
    assert!(!ctx.contains("ประโยค0"));
    assert!(!ctx.contains("ประโยค1"));
    assert!(!ctx.contains("ประโยค2"));
    // Most recent three should be present
    assert!(ctx.contains("ประโยค3"));
    assert!(ctx.contains("ประโยค4"));
    assert!(ctx.contains("ประโยค5"));
}

#[test]
fn reset_clears_window() {
    let mut mgr = ContextManager::new();
    mgr.push_sentence("ประโยคทดสอบ".to_string());
    mgr.reset();
    assert!(mgr.is_empty());
    assert_eq!(mgr.build_context(), None);
}

#[test]
fn context_includes_domain_when_detected() {
    let mut mgr = ContextManager::new();
    // Two medical keywords trigger the Medical domain
    mgr.push_sentence("ผู้ป่วยมีความดันสูง วินิจฉัยโดยแพทย์".to_string());
    let ctx = mgr.build_context().unwrap();
    assert!(ctx.contains("Domain: Medical"), "context: {}", ctx);
}

#[test]
fn context_omits_domain_when_not_detected() {
    let mut mgr = ContextManager::new();
    mgr.push_sentence("สวัสดีครับ ขอบคุณมาก".to_string());
    let ctx = mgr.build_context().unwrap();
    assert!(!ctx.contains("Domain:"), "no domain expected; context: {}", ctx);
}

#[test]
fn silence_gap_beyond_reset_clears_prior_sentences() {
    let mut mgr = ContextManager::with_capacity(3, 120);
    mgr.push_sentence_at("ประโยคแรก".to_string(), 1_000);
    mgr.push_sentence_at("ประโยคสอง".to_string(), 2_000);
    assert_eq!(mgr.len(), 2);

    // 121 s after the last push: beyond the 120 s reset threshold.
    mgr.push_sentence_at("หัวข้อใหม่".to_string(), 2_000 + 121_000);
    assert_eq!(mgr.len(), 1);
    let ctx = mgr.build_context().unwrap();
    assert!(ctx.contains("หัวข้อใหม่"));
    assert!(!ctx.contains("ประโยคแรก"));
    assert!(!ctx.contains("ประโยคสอง"));
}

#[test]
fn silence_gap_exactly_at_reset_keeps_sentences() {
    let mut mgr = ContextManager::with_capacity(3, 120);
    mgr.push_sentence_at("ประโยคแรก".to_string(), 1_000);
    // Exactly 120 s later: not beyond the threshold, so the window is kept.
    mgr.push_sentence_at("ประโยคสอง".to_string(), 1_000 + 120_000);
    assert_eq!(mgr.len(), 2);
}

#[test]
fn vocabulary_entries_appear_in_context() {
    let mut vocab = voice_to_text::vocabulary::UserVocabulary::new();
    vocab.add("ผิด".to_string(), "ถูก".to_string());
    let mut mgr = ContextManager::new();
    mgr.set_vocabulary(vocab);
    mgr.push_sentence("สวัสดีครับ".to_string());
    let ctx = mgr.build_context().unwrap();
    assert!(ctx.contains("User-specific terms:"), "context: {}", ctx);
    assert!(ctx.contains("ผิด"), "context: {}", ctx);
    assert!(ctx.contains("ถูก"), "context: {}", ctx);
}
