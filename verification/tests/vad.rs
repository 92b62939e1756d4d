use voice_to_text::vad::VadDetector;

fn make_signal(silent_pre: usize, voice: usize, silent_post: usize) -> Vec<i16> {
    let mut v = vec![0i16; silent_pre];
    v.extend(vec![5_000i16; voice]); // 0.5 of full scale
    v.extend(vec![0i16; silent_post]);
    v
}

#[test]
fn trims_leading_and_trailing_silence() {
    let audio = make_signal(480, 480, 480); // 30ms silence / 30ms voice / 30ms silence
    let vad = VadDetector::new(100); // 0.01 of full scale
    let trimmed = vad.trim_silence(&audio);
    assert_eq!(trimmed.len(), 480);
}

#[test]
fn trimmed_segment_is_exactly_the_voice() {
    let audio = make_signal(480, 480, 480);
    let vad = VadDetector::new(100);
    let trimmed = vad.trim_silence(&audio);
    assert_eq!(trimmed, &audio[480..960]);
    assert!(trimmed.iter().all(|&s| s == 5_000));
}

#[test]
fn all_silence_returns_empty() {
    let audio = vec![0i16; 1440]; // 90 ms of silence
    let vad = VadDetector::new(100);
    let trimmed = vad.trim_silence(&audio);
    assert_eq!(trimmed.len(), 0);
}

#[test]
fn no_silence_returns_full_signal() {
    let audio = vec![5_000i16; 960]; // 60 ms of voice
    let vad = VadDetector::new(100);
    let trimmed = vad.trim_silence(&audio);
    assert_eq!(trimmed.len(), audio.len());
}

#[test]
fn empty_input_returns_empty() {
    let vad = VadDetector::new(100);
    let trimmed = vad.trim_silence(&[]);
    assert_eq!(trimmed.len(), 0);
}

#[test]
fn threshold_getter() {
    let vad = VadDetector::new(500);
    assert_eq!(vad.threshold(), 500);
}

#[test]
fn custom_frame_size() {
    // Use 160-sample frames (10 ms at 16 kHz)
    let vad = VadDetector::with_frame_size(100, 160);
    let audio = make_signal(160, 160, 160);
    let trimmed = vad.trim_silence(&audio);
    assert_eq!(trimmed.len(), 160);
}
