//! Keyword-based domain detection for Thai (and mixed) text.
//!
//! [`DomainDetector`] scans a text window for domain-specific keywords and
//! returns the best-matching domain label (`"Medical"`, `"Legal"`,
//! `"Technical"`, `"Casual"`).  Each domain has its own keyword list and a
//! minimum match count that prevents false positives; among domains at or
//! above their threshold, the highest match count wins, the later-listed
//! domain on a tie.

use vstd::prelude::*;

use crate::text::{spec_contains, str_contains};

verus! {

/// Keywords of the medical domain.
pub open spec fn medical_keywords() -> Seq<Seq<char>> {
    seq![
        "ผู้ป่วย"@,
        "ยา"@,
        "อาการ"@,
        "โรค"@,
        "แพทย์"@,
        "วินิจฉัย"@,
        "โรงพยาบาล"@,
        "เบาหวาน"@,
        "ความดัน"@,
        "การรักษา"@,
    ]
}

/// Keywords of the legal domain.
pub open spec fn legal_keywords() -> Seq<Seq<char>> {
    seq![
        "กฎหมาย"@,
        "สัญญา"@,
        "ศาล"@,
        "จำเลย"@,
        "โจทก์"@,
        "คดี"@,
        "ข้อพิพาท"@,
        "พระราชบัญญัติ"@,
        "ทนายความ"@,
        "คำพิพากษา"@,
    ]
}

/// Keywords of the technical domain.
pub open spec fn technical_keywords() -> Seq<Seq<char>> {
    seq![
        "code"@,
        "function"@,
        "server"@,
        "deploy"@,
        "database"@,
        "API"@,
        "bug"@,
        "ซอฟต์แวร์"@,
        "ระบบ"@,
        "โปรแกรม"@,
        "คอมพิวเตอร์"@,
    ]
}

/// Keywords of the casual domain.
pub open spec fn casual_keywords() -> Seq<Seq<char>> {
    seq!["คุย"@, "เล่า"@, "เพื่อน"@, "กิน"@, "ไปเที่ยว"@, "สนุก"@, "หัวเราะ"@, "นัด"@]
}

/// How many of `kws` occur in `text`.
pub open spec fn match_count(text: Seq<char>, kws: Seq<Seq<char>>) -> nat
    decreases kws.len(),
{
    if kws.len() == 0 {
        0
    } else {
        match_count(text, kws.drop_last()) + (if spec_contains(text, kws.last()) {
            1nat
        } else {
            0nat
        })
    }
}

/// Fold step of the winner selection: a domain whose count reaches its
/// threshold displaces the best so far unless that one has a strictly
/// higher count (so on a tie the later domain wins).
pub open spec fn pick_domain(
    best: Option<(Seq<char>, nat)>,
    name: Seq<char>,
    count: nat,
    threshold: nat,
) -> Option<(Seq<char>, nat)> {
    if count >= threshold && (best is None || count >= best->Some_0.1) {
        Some((name, count))
    } else {
        best
    }
}

/// The detected domain of `text`: the domains are considered in the order
/// medical, legal, technical, casual with thresholds 2, 2, 2, 3.
pub open spec fn spec_detect(text: Seq<char>) -> Option<Seq<char>> {
    let b1 = pick_domain(None, "Medical"@, match_count(text, medical_keywords()), 2);
    let b2 = pick_domain(b1, "Legal"@, match_count(text, legal_keywords()), 2);
    let b3 = pick_domain(b2, "Technical"@, match_count(text, technical_keywords()), 2);
    let b4 = pick_domain(b3, "Casual"@, match_count(text, casual_keywords()), 3);
    match b4 {
        Some((name, _)) => Some(name),
        None => None,
    }
}

/// Count how many of the keywords occur in `text`.
#[verifier::loop_isolation(false)]
fn count_matches(text: &str, kws: &Vec<&'static str>) -> (r: usize)
    ensures
        r == match_count(text@, kws.deep_view()),
{
    let mut count: usize = 0;
    let mut i: usize = 0;
    while i < kws.len()
        invariant
            i <= kws@.len(),
            count <= i,
            count == match_count(text@, kws.deep_view().take(i as int)),
        decreases kws@.len() - i,
    {
        if str_contains(text, kws[i]) {
            count = count + 1;
        }
        proof {
            assert(kws.deep_view().take(i + 1 as int).drop_last() =~= kws.deep_view().take(
                i as int,
            ));
            assert(kws.deep_view().take(i + 1 as int).last() == kws@[i as int]@);
        }
        i = i + 1;
    }
    proof {
        assert(kws.deep_view().take(kws.deep_view().len() as int) =~= kws.deep_view());
    }
    count
}

/// Detects the likely domain of a text excerpt based on keyword frequency.
pub struct DomainDetector {}

impl DomainDetector {
    /// Create a new detector with the built-in domain definitions.
    pub fn new() -> (r: Self)
        ensures
            r == (DomainDetector {  }),
    {
        DomainDetector {  }
    }

    /// Detect the most likely domain label for `text`, or `None` when no
    /// domain reaches its match threshold.
    pub fn detect(&self, text: &str) -> (r: Option<String>)
        ensures
            match r {
                Some(name) => spec_detect(text@) == Some(name@),
                None => spec_detect(text@) is None,
            },
    {
        let medical: Vec<&'static str> = vec![
            "ผู้ป่วย",
            "ยา",
            "อาการ",
            "โรค",
            "แพทย์",
            "วินิจฉัย",
            "โรงพยาบาล",
            "เบาหวาน",
            "ความดัน",
            "การรักษา",
        ];
        let legal: Vec<&'static str> = vec![
            "กฎหมาย",
            "สัญญา",
            "ศาล",
            "จำเลย",
            "โจทก์",
            "คดี",
            "ข้อพิพาท",
            "พระราชบัญญัติ",
            "ทนายความ",
            "คำพิพากษา",
        ];
        let technical: Vec<&'static str> = vec![
            "code",
            "function",
            "server",
            "deploy",
            "database",
            "API",
            "bug",
            "ซอฟต์แวร์",
            "ระบบ",
            "โปรแกรม",
            "คอมพิวเตอร์",
        ];
        let casual: Vec<&'static str> = vec!["คุย", "เล่า", "เพื่อน", "กิน", "ไปเที่ยว", "สนุก", "หัวเราะ", "นัด"];
        proof {
            assert(medical.deep_view() =~= medical_keywords());
            assert(legal.deep_view() =~= legal_keywords());
            assert(technical.deep_view() =~= technical_keywords());
            assert(casual.deep_view() =~= casual_keywords());
        }

        let m = count_matches(text, &medical);
        let l = count_matches(text, &legal);
        let t = count_matches(text, &technical);
        let c = count_matches(text, &casual);

        let mut best: Option<(&'static str, usize)> = None;
        if m >= 2 {
            best = Some(("Medical", m));
        }
        if l >= 2 && (best.is_none() || l >= best.unwrap().1) {
            best = Some(("Legal", l));
        }
        if t >= 2 && (best.is_none() || t >= best.unwrap().1) {
            best = Some(("Technical", t));
        }
        if c >= 3 && (best.is_none() || c >= best.unwrap().1) {
            best = Some(("Casual", c));
        }
        match best {
            Some((name, _)) => Some(name.to_owned()),
            None => None,
        }
    }
}

impl Default for DomainDetector {
    fn default() -> (r: Self)
        ensures
            r == (DomainDetector {  }),
    {
        DomainDetector {  }
    }
}

} // verus!
