use voice_to_text::vocabulary::UserVocabulary;

#[test]
fn vocabulary_starts_empty() {
    let vocab = UserVocabulary::new();
    assert!(vocab.is_empty());
    assert_eq!(vocab.len(), 0);
}

#[test]
fn add_new_entry() {
    let mut vocab = UserVocabulary::new();
    vocab.add("กาแฟ".into(), "กาแฟ".into());
    assert_eq!(vocab.len(), 1);
}

#[test]
fn add_duplicate_increments_frequency() {
    let mut vocab = UserVocabulary::new();
    vocab.add("ไก่".into(), "ไก่".into());
    vocab.add("ไก่".into(), "ไก่".into());
    assert_eq!(vocab.len(), 1);
    assert_eq!(vocab.entries()[0].frequency, 2);
}

#[test]
fn top_entries_sorted_by_frequency() {
    let mut vocab = UserVocabulary::new();
    vocab.add("a".into(), "A".into());
    vocab.add("b".into(), "B".into());
    vocab.add("b".into(), "B".into());
    vocab.add("c".into(), "C".into());
    vocab.add("c".into(), "C".into());
    vocab.add("c".into(), "C".into());

    let top = vocab.top_entries(2);
    assert_eq!(top.len(), 2);
    assert_eq!(top[0].0, "c"); // highest frequency first
    assert_eq!(top[1].0, "b");
}

#[test]
fn top_entries_respects_n_limit() {
    let mut vocab = UserVocabulary::new();
    for i in 0..10 {
        vocab.add(format!("error_{}", i), format!("fix_{}", i));
    }
    let top = vocab.top_entries(3);
    assert_eq!(top.len(), 3);
}

#[test]
fn equal_frequencies_keep_insertion_order() {
    let mut vocab = UserVocabulary::new();
    vocab.add("first".into(), "F".into());
    vocab.add("second".into(), "S".into());
    vocab.add("third".into(), "T".into());

    let top = vocab.top_entries(3);
    assert_eq!(top[0].0, "first");
    assert_eq!(top[1].0, "second");
    assert_eq!(top[2].0, "third");
}

#[test]
fn updating_replaces_the_correction() {
    let mut vocab = UserVocabulary::new();
    vocab.add("ผิด".into(), "ถูก".into());
    vocab.add("ผิด".into(), "ถูกกว่า".into());
    assert_eq!(vocab.len(), 1);
    assert_eq!(vocab.entries()[0].correction, "ถูกกว่า");
}
