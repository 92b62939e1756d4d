use voice_to_text::hotkey::{parse_key, Key};

#[test]
fn parse_function_keys() {
    assert_eq!(parse_key("F9"), Some(Key::F9));
    assert_eq!(parse_key("F1"), Some(Key::F1));
    assert_eq!(parse_key("F12"), Some(Key::F12));
}

#[test]
fn parse_named_keys() {
    assert_eq!(parse_key("Escape"), Some(Key::Escape));
    assert_eq!(parse_key("Esc"), Some(Key::Escape));
    assert_eq!(parse_key("Space"), Some(Key::Space));
    assert_eq!(parse_key("Return"), Some(Key::Return));
    assert_eq!(parse_key("Enter"), Some(Key::Return));
}

#[test]
fn parse_letter_keys_case_insensitive() {
    assert_eq!(parse_key("A"), Some(Key::KeyA));
    assert_eq!(parse_key("a"), Some(Key::KeyA));
    assert_eq!(parse_key("Z"), Some(Key::KeyZ));
    assert_eq!(parse_key("z"), Some(Key::KeyZ));
}

#[test]
fn parse_unknown_key_returns_none() {
    assert_eq!(parse_key("xyz"), None);
    assert_eq!(parse_key(""), None);
    assert_eq!(parse_key("Ctrl+V"), None);
}
