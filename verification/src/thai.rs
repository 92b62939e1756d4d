//! Thai-text validation.
//!
//! Before injecting text produced by STT or correction, the pipeline checks
//! that the string is non-empty, contains at least one Thai character
//! (U+0E01 through U+0E5B), and holds nothing but ASCII, Thai and
//! whitespace — a stray code point from another script indicates a
//! transcription error.

use vstd::prelude::*;

use crate::inject::InjectError;
use crate::text::{chars_vec, hex_string, is_space, is_space_char, spec_hex};

verus! {

/// Whether `c` falls within the Thai Unicode block used for voice output
/// (U+0E01, the first assigned Thai character, through U+0E5B).
pub open spec fn is_thai_char(c: char) -> bool {
    0x0E01 <= c as u32 && c as u32 <= 0x0E5B
}

/// Executable test for [`is_thai_char`].
pub fn is_thai(c: char) -> (r: bool)
    ensures
        r == is_thai_char(c),
{
    let u = c as u32;
    0x0E01 <= u && u <= 0x0E5B
}

/// Whether `c` may appear in injected text: ASCII, Thai or whitespace.
pub open spec fn allowed_char(c: char) -> bool {
    c as u32 <= 0x7F || is_thai_char(c) || is_space(c)
}

/// Whether `s` contains at least one Thai character.
pub open spec fn has_thai(s: Seq<char>) -> bool {
    exists|i: int| 0 <= i < s.len() && is_thai_char(s[i])
}

/// Whether `s` is valid text for injection.
pub open spec fn valid_thai_text(s: Seq<char>) -> bool {
    &&& s.len() > 0
    &&& has_thai(s)
    &&& forall|i: int| 0 <= i < s.len() ==> allowed_char(s[i])
}

/// The code of `n` as at least four uppercase hexadecimal digits.
pub open spec fn spec_hex4(n: nat) -> Seq<char> {
    if n < 0x10 {
        "000"@ + spec_hex(n)
    } else if n < 0x100 {
        "00"@ + spec_hex(n)
    } else if n < 0x1000 {
        "0"@ + spec_hex(n)
    } else {
        spec_hex(n)
    }
}

fn hex4_string(n: u32) -> (r: String)
    ensures
        r@ == spec_hex4(n as nat),
{
    let mut s = String::new();
    if n < 0x10 {
        s.append("000");
    } else if n < 0x100 {
        s.append("00");
    } else if n < 0x1000 {
        s.append("0");
    }
    s.append(hex_string(n).as_str());
    s
}

/// Validate that `text` is suitable for Thai voice-to-text injection.
///
/// The rules, in order: the text is non-empty; it contains at least one
/// Thai character (U+0E01 through U+0E5B); every character is ASCII, Thai
/// or whitespace.  The error reports the first rule that fails, naming the
/// first unsupported character for the last rule.
#[verifier::loop_isolation(false)]
pub fn validate_thai_text(text: &str) -> (r: Result<(), InjectError>)
    ensures
        r is Ok <==> valid_thai_text(text@),
        text@.len() == 0 ==> (r matches Err(InjectError::Validation(m)) && m@
            == "text must not be empty"@),
        text@.len() > 0 && !has_thai(text@) ==> (r matches Err(InjectError::Validation(m)) && m@
            == "text must contain at least one Thai character (U+0E01-U+0E5B)"@),
        text@.len() > 0 && has_thai(text@) && !valid_thai_text(text@) ==> exists|i: int|
            {
                &&& 0 <= i < text@.len()
                &&& !allowed_char(text@[i])
                &&& (forall|j: int| 0 <= j < i ==> allowed_char(text@[j]))
                &&& (r matches Err(InjectError::Validation(m)) && m@
                    == "text contains unsupported character U+"@ + spec_hex4(
                    text@[i] as u32 as nat,
                ) + " ("@ + seq![text@[i]] + ")"@)
            },
{
    let cs = chars_vec(text);
    let len = cs.len();

    // Rule 1: non-empty.
    if len == 0 {
        return Err(InjectError::Validation("text must not be empty".to_owned()));
    }

    // Rule 2: at least one Thai character.
    let mut found_thai = false;
    let mut i: usize = 0;
    while i < len && !found_thai
        invariant
            i <= len,
            found_thai ==> has_thai(text@),
            !found_thai ==> forall|j: int| 0 <= j < i ==> !is_thai_char(text@[j]),
        decreases len - i,
    {
        if is_thai(cs[i]) {
            found_thai = true;
        }
        i = i + 1;
    }
    if !found_thai {
        proof {
            assert(!has_thai(text@));
        }
        return Err(
            InjectError::Validation(
                "text must contain at least one Thai character (U+0E01-U+0E5B)".to_owned(),
            ),
        );
    }

    // Rule 3: every character is ASCII, Thai or whitespace.
    let mut k: usize = 0;
    while k < len
        invariant
            k <= len,
            forall|j: int| 0 <= j < k ==> allowed_char(text@[j]),
        decreases len - k,
    {
        let c = cs[k];
        let ascii = (c as u32) <= 0x7F;
        if !ascii && !is_thai(c) && !is_space_char(c) {
            let mut m = String::new();
            m.append("text contains unsupported character U+");
            m.append(hex4_string(c as u32).as_str());
            m.append(" (");
            m.append(text.substring_char(k, k + 1));
            m.append(")");
            proof {
                assert(text@.subrange(k as int, k + 1 as int) =~= seq![text@[k as int]]);
                assert(!valid_thai_text(text@));
            }
            return Err(InjectError::Validation(m));
        }
        k = k + 1;
    }
    proof {
        assert(valid_thai_text(text@));
    }
    Ok(())
}

} // verus!
