use voice_to_text::quality::{AudioError, AudioQuality};

/// `ms` milliseconds of audio at 16 kHz with constant `amplitude`
/// (fixed-point: 10 000 units = full scale).
fn make_audio(ms: u32, amplitude: i16) -> Vec<i16> {
    vec![amplitude; (ms as usize) * 16]
}

#[test]
fn valid_audio_passes() {
    let validator = AudioQuality::default();
    let audio = make_audio(1_000, 3_000); // 1 s at 0.3 of full scale
    assert!(validator.validate(&audio).is_ok());
}

#[test]
fn too_short_rejected() {
    let validator = AudioQuality::new(500, 60_000);
    let audio = make_audio(100, 3_000); // 0.1 s < 0.5 s minimum
    let err = validator.validate(&audio).unwrap_err();
    assert!(matches!(err, AudioError::TooShort { .. }));
}

#[test]
fn too_long_rejected() {
    let validator = AudioQuality::new(500, 10_000);
    let audio = make_audio(11_000, 3_000); // 11 s > 10 s maximum
    let err = validator.validate(&audio).unwrap_err();
    assert!(matches!(err, AudioError::TooLong { .. }));
}

#[test]
fn silent_audio_rejected() {
    let validator = AudioQuality::default();
    let audio = make_audio(1_000, 0); // all zeros
    let err = validator.validate(&audio).unwrap_err();
    assert!(matches!(err, AudioError::TooQuiet { .. }));
}

#[test]
fn amplitude_just_below_threshold_rejected() {
    let mut validator = AudioQuality::default();
    validator.silence_threshold = 500; // 0.05 of full scale
    let audio = make_audio(1_000, 400); // 0.04 < 0.05
    assert!(matches!(
        validator.validate(&audio).unwrap_err(),
        AudioError::TooQuiet { .. }
    ));
}

#[test]
fn clipping_rejected() {
    let mut validator = AudioQuality::default();
    validator.clipping_max_pct = 5;

    // 100% clipped (all samples at full scale, above the 0.99 threshold)
    let audio = make_audio(1_000, 10_000);
    let err = validator.validate(&audio).unwrap_err();
    assert!(matches!(err, AudioError::Clipping { .. }));
}

#[test]
fn minor_clipping_within_limit_passes() {
    let validator = AudioQuality::default(); // 10% max
    // Build audio: 95% quiet + 5% clipped (< 10% limit)
    let total = 16_000usize;
    let clipped_count = total * 5 / 100;
    let mut audio = vec![3_000i16; total - clipped_count];
    audio.extend(vec![10_000i16; clipped_count]);
    assert!(validator.validate(&audio).is_ok());
}

#[test]
fn at_minimum_duration_passes() {
    let validator = AudioQuality::new(500, 60_000);
    // Exactly 0.5 s (8000 samples at 16 kHz)
    let audio = make_audio(500, 2_000);
    assert!(validator.validate(&audio).is_ok());
}

#[test]
fn one_sample_below_minimum_fails() {
    let validator = AudioQuality::new(500, 60_000);
    let mut audio = make_audio(500, 2_000);
    audio.pop(); // 7999 samples: one below the minimum
    let err = validator.validate(&audio).unwrap_err();
    assert!(matches!(err, AudioError::TooShort { .. }));
}

#[test]
fn clipping_exactly_at_limit_passes() {
    let validator = AudioQuality::default(); // 10% max
    // Exactly 10% clipped: clipped * 100 == len * 10
    let total = 16_000usize;
    let clipped_count = total / 10;
    let mut audio = vec![3_000i16; total - clipped_count];
    audio.extend(vec![10_000i16; clipped_count]);
    assert!(validator.validate(&audio).is_ok());
}

#[test]
fn clipping_one_sample_over_limit_fails() {
    let validator = AudioQuality::default(); // 10% max
    let total = 16_000usize;
    let clipped_count = total / 10 + 1;
    let mut audio = vec![3_000i16; total - clipped_count];
    audio.extend(vec![10_000i16; clipped_count]);
    let err = validator.validate(&audio).unwrap_err();
    assert!(matches!(err, AudioError::Clipping { .. }));
}

#[test]
fn error_message_names_the_threshold() {
    let validator = AudioQuality::new(500, 60_000);
    let err = validator.validate(&make_audio(100, 3_000)).unwrap_err();
    let msg = err.message();
    assert!(msg.contains("too short"), "message: {msg}");
    assert!(msg.contains("100"), "message: {msg}"); // measured: 1600 samples = 100 ms
    assert!(msg.contains("500"), "message: {msg}"); // threshold
}
