use voice_to_text::model::{find_model_by_id, models_for_language, thai_models, whisper_models, ModelPaths, ModelSize};

#[test]
fn thai_models_have_correct_language() {
    for m in thai_models() {
        assert_eq!(m.language, "th", "model {} should be 'th'", m.id);
    }
}

#[test]
fn whisper_models_have_multilingual_language() {
    for m in whisper_models() {
        assert_eq!(m.language, "multilingual", "model {} should be 'multilingual'", m.id);
    }
}

#[test]
fn models_for_language_routes_correctly() {
    let thai = models_for_language("th");
    assert!(!thai.is_empty());
    assert!(thai.iter().all(|m| m.language == "th"));

    let multi = models_for_language("en");
    assert!(!multi.is_empty());
    assert!(multi.iter().all(|m| m.language == "multilingual"));
}

#[test]
fn find_model_by_id_known() {
    let m = find_model_by_id("thonburian-medium");
    assert!(m.is_some());
    assert_eq!(m.unwrap().size, ModelSize::Medium);
}

#[test]
fn find_model_by_id_unknown() {
    assert!(find_model_by_id("does-not-exist").is_none());
}

#[test]
fn model_paths_correct_file_name() {
    let mp = ModelPaths::new("/models");
    let model = thai_models()[1]; // thonburian-medium
    let p = mp.model_path(&model);
    assert!(p.ends_with("ggml-thonburian-medium.bin"));
}
