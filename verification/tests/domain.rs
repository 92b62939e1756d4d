use voice_to_text::domain::DomainDetector;

#[test]
fn detects_medical_domain() {
    let d = DomainDetector::new();
    let text = "ผู้ป่วยมีความดันสูง วินิจฉัยโดยแพทย์ที่โรงพยาบาล";
    assert_eq!(d.detect(text), Some("Medical".to_string()));
}

#[test]
fn detects_legal_domain() {
    let d = DomainDetector::new();
    let text = "คดีนี้ขึ้นศาล โจทก์ยื่นฟ้องตามกฎหมาย";
    assert_eq!(d.detect(text), Some("Legal".to_string()));
}

#[test]
fn detects_technical_domain() {
    let d = DomainDetector::new();
    let text = "deploy server แล้ว ยัง bug อยู่ใน function นี้";
    assert_eq!(d.detect(text), Some("Technical".to_string()));
}

#[test]
fn returns_none_below_threshold() {
    let d = DomainDetector::new();
    // Only one medical keyword — below threshold of 2
    let text = "ผู้ป่วยมาหา";
    assert_eq!(d.detect(text), None);
}

#[test]
fn returns_none_for_unrelated_text() {
    let d = DomainDetector::new();
    assert_eq!(d.detect("สวัสดีครับ ขอบคุณมากครับ"), None);
}

#[test]
fn prefers_higher_match_count() {
    let d = DomainDetector::new();
    // Medical has 4 matches, Legal has 2 — Medical should win
    let text = "ผู้ป่วยมีโรคเบาหวาน แพทย์วินิจฉัยว่ามีอาการ และต้องทำสัญญา ปรึกษากฎหมาย";
    assert_eq!(d.detect(text), Some("Medical".to_string()));
}
