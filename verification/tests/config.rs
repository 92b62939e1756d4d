use voice_to_text::config::{AppConfig, LlmProvider, OperatingMode};
use voice_to_text::paths::AppPaths;

/// Verify default values match the design.
#[test]
fn default_values_match_spec() {
    let cfg = AppConfig::default();

    assert_eq!(cfg.operating_mode, OperatingMode::Standard);
    assert_eq!(cfg.llm.provider, LlmProvider::Ollama);
    assert_eq!(cfg.llm.base_url, "http://localhost:11434");
    assert_eq!(cfg.llm.model, "qwen2.5:3b");
    assert_eq!(cfg.llm.timeout_secs, 10);
    assert!(cfg.llm.api_key.is_none());
    assert_eq!(cfg.stt.model, "thonburian-medium");
    assert_eq!(cfg.stt.language, "th");
    assert_eq!(cfg.audio.sample_rate, 16_000);
    assert_eq!(cfg.audio.min_recording_ms, 500);
    assert_eq!(cfg.audio.max_recording_ms, 60_000);
    assert_eq!(cfg.hotkey.push_to_talk_key, "F9");
    assert!(cfg.ui.always_on_top);
    assert_eq!(cfg.context.window_size, 3);
    assert_eq!(cfg.context.reset_silence_secs, 120);
}

#[test]
fn paths_are_non_empty() {
    let paths = AppPaths::new();
    assert!(!paths.config_dir.is_empty());
    assert!(!paths.models_dir.is_empty());
    assert!(paths.settings_file.ends_with("settings.toml"));
    assert!(paths.user_vocab_file.ends_with("user-vocab.json"));
}
