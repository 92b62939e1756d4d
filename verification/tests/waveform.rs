use voice_to_text::waveform::WaveformData;

#[test]
fn correct_number_of_bars() {
    let audio = vec![3_000i16; 16_000];
    let w = WaveformData::compute(&audio, 20);
    assert_eq!(w.bars.len(), 20);
}

#[test]
fn bars_clamped_to_unit_range() {
    // Samples at full scale — RMS = full scale, clamped there
    let audio = vec![10_000i16; 1_600];
    let w = WaveformData::compute(&audio, 10);
    for &b in &w.bars {
        assert!(b <= 10_000, "bar out of range: {b}");
    }
}

#[test]
fn silent_audio_all_zero_bars() {
    let audio = vec![0i16; 1_600];
    let w = WaveformData::compute(&audio, 10);
    for &b in &w.bars {
        assert_eq!(b, 0);
    }
}

#[test]
fn empty_audio_returns_zero_bars() {
    let w = WaveformData::compute(&[], 10);
    assert_eq!(w.bars.len(), 10);
    for &b in &w.bars {
        assert_eq!(b, 0);
    }
}

#[test]
fn zero_num_bars_returns_empty() {
    let audio = vec![5_000i16; 1_000];
    let w = WaveformData::compute(&audio, 0);
    assert!(w.is_empty());
}

#[test]
fn peak_reflects_max_bar() {
    let audio = vec![5_000i16; 1_600]; // constant half scale: RMS = 5000
    let w = WaveformData::compute(&audio, 10);
    assert_eq!(w.peak(), 5_000);
}

#[test]
fn bars_shorter_than_num_bars_padded_with_zeros() {
    // Only 1 sample — cannot fill 10 bars; the remaining are 0
    let audio = vec![5_000i16; 1];
    let w = WaveformData::compute(&audio, 10);
    assert_eq!(w.bars.len(), 10);
    assert!(w.bars.iter().skip(1).all(|&b| b == 0));
}

#[test]
fn len_and_is_empty() {
    let w = WaveformData::compute(&[], 5);
    assert_eq!(w.len(), 5);
    assert!(!w.is_empty());

    let empty = WaveformData::compute(&[], 0);
    assert!(empty.is_empty());
}
