use voice_to_text::prompt::PromptBuilder;

// -----------------------------------------------------------------------
// Thai prompt tests
// -----------------------------------------------------------------------

#[test]
fn thai_system_instruction_contains_language_rule() {
    let builder = PromptBuilder::new("th");
    let (system, _) = builder.build_chat("เอ่อ สวัสดี ครับ", None);

    assert!(
        system.contains("Speech-to-Text"),
        "system msg must mention Speech-to-Text"
    );
    assert!(system.contains("ภาษาไทย"), "system msg must mention Thai language");
    assert!(system.contains("วรรณยุกต์"), "system msg must mention tone mark correction");
    assert!(system.contains("อุทาน"), "system msg must mention filler word removal");
    assert!(system.contains("เครื่องหมายวรรคตอน"), "system msg must mention punctuation");
}

#[test]
fn thai_user_msg_contains_few_shot_examples() {
    let builder = PromptBuilder::new("th");
    let (_, user) = builder.build_chat("ทดสอบ", None);

    assert!(user.contains("Examples:"), "user msg must contain Examples");
    assert!(user.contains("ผมเสร็จงานแล้ว"), "user msg must contain Thai few-shot output");
}

#[test]
fn thai_prompt_includes_raw_text_and_cue() {
    let builder = PromptBuilder::new("th");
    let raw = "เอ่อ ผม ทำงาน เสร็จ แล้ว ครับ";
    let (_, user) = builder.build_chat(raw, None);

    assert!(user.contains(raw), "user msg must contain the raw STT output");
    assert!(
        user.contains("Original STT output:"),
        "user msg must have the 'Original STT output:' label"
    );
    assert!(user.contains("Corrected:"), "user msg must have the 'Corrected:' cue");
}

#[test]
fn thai_prompt_embeds_context_string() {
    let builder = PromptBuilder::new("th");
    let ctx = "Domain: Medical\nPrevious context:\n- ผู้ป่วยมีไข้สูง\n";
    let (_, user) = builder.build_chat("ประโยคใหม่", Some(ctx));

    assert!(
        user.contains("ผู้ป่วยมีไข้สูง"),
        "user msg must contain previous context sentences"
    );
    assert!(user.contains("Domain: Medical"), "user msg must contain domain hint");
    assert!(user.contains("ประโยคใหม่"), "user msg must contain the raw text");
}

#[test]
fn no_context_produces_valid_prompt() {
    let builder = PromptBuilder::new("th");
    let (system, user) = builder.build_chat("สวัสดี", None);

    assert!(!system.is_empty());
    assert!(!user.is_empty());
    assert!(user.contains("สวัสดี"));
}

// -----------------------------------------------------------------------
// English prompt tests
// -----------------------------------------------------------------------

#[test]
fn english_system_instruction_mentions_filler_words() {
    let builder = PromptBuilder::new("en");
    let (system, _) = builder.build_chat("um hello there", None);

    assert!(system.contains("Speech-to-Text"));
    assert!(
        system.contains("filler words"),
        "English system msg must mention filler words"
    );
    assert!(
        system.contains("punctuation"),
        "English system msg must mention punctuation"
    );
}

#[test]
fn english_user_msg_has_few_shot_examples() {
    let builder = PromptBuilder::new("en");
    let (_, user) = builder.build_chat("um test", None);

    assert!(user.contains("Examples:"));
    assert!(user.contains("I finished the report."));
}

// -----------------------------------------------------------------------
// Unknown language falls back to English
// -----------------------------------------------------------------------

#[test]
fn unknown_language_falls_back_to_english() {
    let builder = PromptBuilder::new("ja");
    let (system, user) = builder.build_chat("test", None);

    // Should use English instructions
    assert!(system.contains("Speech-to-Text"));
    assert!(user.contains("I finished the report."));
}

// -----------------------------------------------------------------------
// Flat prompt (build)
// -----------------------------------------------------------------------

#[test]
fn flat_prompt_contains_all_sections() {
    let builder = PromptBuilder::new("th");
    let prompt = builder.build("สวัสดี", None);

    assert!(prompt.contains("Speech-to-Text"));
    assert!(prompt.contains("Examples:"));
    assert!(prompt.contains("สวัสดี"));
    assert!(prompt.contains("Corrected:"));
}

#[test]
fn flat_prompt_with_context() {
    let builder = PromptBuilder::new("th");
    let ctx = "Domain: Technical\n";
    let prompt = builder.build("บั๊กมันอยู่ที่ไหน", Some(ctx));

    assert!(prompt.contains("Domain: Technical"));
    assert!(prompt.contains("บั๊กมันอยู่ที่ไหน"));
}
