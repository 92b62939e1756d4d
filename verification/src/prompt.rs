//! Prompt builder for Thai (and multilingual) STT correction.
//!
//! [`PromptBuilder`] constructs two kinds of prompts: a flat single string,
//! and a `(system, user)` message pair for chat-style endpoints.  Thai
//! (`"th"`) has dedicated instructions and few-shot examples; every other
//! language code falls back to the English ones.

use vstd::prelude::*;

use crate::text::str_eq;

verus! {

/// Thai system instruction: tone marks, homophones, filler words, Thai
/// punctuation.
pub const SYSTEM_INSTRUCTION_TH: &'static str = "\
คุณคือระบบแก้ไขข้อความจาก Speech-to-Text สำหรับภาษาไทย
หน้าที่: แก้ไขข้อผิดพลาดจากการถอดเสียง โดยรักษาความหมายเดิม

กฎ:
1. แก้ไขวรรณยุกต์และคำพ้องเสียงที่ผิด
2. ลบคำอุทาน (เอ่อ, อ่า, อ่านะ, ครับ/ค่ะ ที่ไม่จำเป็น) ออก
3. เพิ่มเครื่องหมายวรรคตอนที่เหมาะสม
4. รักษาคำภาษาอังกฤษและศัพท์เทคนิค ไม่แปลงเป็นภาษาไทย
5. ตอบเฉพาะข้อความที่แก้ไขแล้ว ไม่ต้องอธิบาย
6. ถ้าข้อความถูกต้องแล้ว ให้ตอบข้อความเดิมกลับมา";

/// Generic English / multilingual instruction: filler words, punctuation,
/// common STT errors.
pub const SYSTEM_INSTRUCTION_EN: &'static str = "\
You are a Speech-to-Text post-correction assistant.
Task: Fix transcription errors while preserving the original meaning.

Rules:
1. Fix mis-transcribed words (homophones, wrong words that sound similar).
2. Remove filler words (um, uh, like, you know, etc.).
3. Add appropriate punctuation and capitalisation.
4. Preserve technical terms, proper nouns, and code snippets exactly.
5. Reply with ONLY the corrected text — no explanation.
6. If the text is already correct, return it unchanged.";

/// Thai few-shot examples.
pub const FEW_SHOT_EXAMPLES_TH: &'static str = "
Examples:
Input: \"เอ่อ ผม เสร็จ งาน แล้ว นะ ครับ จะ ส่ง ให้ พรุ่งนี้\"
Output: \"ผมเสร็จงานแล้ว จะส่งให้พรุ่งนี้\"

Input: \"ไฟล์ มัน ไม่ โหลด เพราะ network connection มัน drop\"
Output: \"ไฟล์ไม่โหลดเพราะ network connection drop\"

Input: \"อ่า ผู้ป่วย มี ความดัน สูง 140 ต่อ 90\"
Output: \"ผู้ป่วยมีความดันสูง 140/90\"
";

/// English few-shot examples.
pub const FEW_SHOT_EXAMPLES_EN: &'static str = "
Examples:
Input: \"um I finished the report uh it should be ready by tomorrow\"
Output: \"I finished the report. It should be ready by tomorrow.\"

Input: \"the file won't load because the network connection like dropped\"
Output: \"The file won't load because the network connection dropped.\"

Input: \"the patient has hypertension one forty over ninety\"
Output: \"The patient has hypertension 140/90.\"
";

/// The system instruction for a language code: Thai for `"th"`, English
/// otherwise.
pub open spec fn spec_system_instruction(lang: Seq<char>) -> Seq<char> {
    if lang == "th"@ {
        SYSTEM_INSTRUCTION_TH@
    } else {
        SYSTEM_INSTRUCTION_EN@
    }
}

/// The few-shot examples for a language code: Thai for `"th"`, English
/// otherwise.
pub open spec fn spec_few_shot_examples(lang: Seq<char>) -> Seq<char> {
    if lang == "th"@ {
        FEW_SHOT_EXAMPLES_TH@
    } else {
        FEW_SHOT_EXAMPLES_EN@
    }
}

/// The tail of every prompt: the optional context block, the raw STT output
/// and the correction cue.
pub open spec fn spec_prompt_tail(raw: Seq<char>, context: Option<Seq<char>>) -> Seq<char> {
    (match context {
        Some(c) => "\n"@ + c,
        None => Seq::empty(),
    }) + "\nOriginal STT output:\n"@ + raw + "\n\nCorrected:\n"@
}

/// The flat prompt: system instruction, few-shot examples, then the tail.
pub open spec fn spec_build(lang: Seq<char>, raw: Seq<char>, context: Option<Seq<char>>) -> Seq<
    char,
> {
    spec_system_instruction(lang) + spec_few_shot_examples(lang) + spec_prompt_tail(raw, context)
}

/// The user message of the chat prompt: few-shot examples, then the tail.
pub open spec fn spec_build_user(lang: Seq<char>, raw: Seq<char>, context: Option<Seq<char>>) -> Seq<
    char,
> {
    spec_few_shot_examples(lang) + spec_prompt_tail(raw, context)
}

/// The view of an optional borrowed string.
pub open spec fn view_opt_str(o: Option<&str>) -> Option<Seq<char>> {
    match o {
        Some(s) => Some(s@),
        None => None,
    }
}

/// Builds STT-correction prompts in either flat or chat-message format.
pub struct PromptBuilder {
    language: String,
}

impl PromptBuilder {
    /// The configured ISO-639-1 language code.
    pub closed spec fn spec_language(&self) -> Seq<char> {
        self.language@
    }

    /// Create a new builder for the given ISO-639-1 language code.
    ///
    /// `"th"` has dedicated instructions; any other code falls back to the
    /// English ones.
    pub fn new(language: &str) -> (r: Self)
        ensures
            r.spec_language() == language@,
    {
        PromptBuilder { language: language.to_owned() }
    }

    /// Build a flat prompt string, in order: system instruction, few-shot
    /// examples, the context block if provided, and the raw STT output with
    /// the correction cue.
    pub fn build(&self, raw: &str, context: Option<&str>) -> (r: String)
        ensures
            r@ == spec_build(self.spec_language(), raw@, view_opt_str(context)),
    {
        let mut prompt = String::new();
        prompt.append(self.system_instruction());
        prompt.append(self.few_shot_examples());
        match context {
            Some(ctx) => {
                prompt.append("\n");
                prompt.append(ctx);
            },
            None => {},
        }
        prompt.append("\nOriginal STT output:\n");
        prompt.append(raw);
        prompt.append("\n\nCorrected:\n");
        proof {
            assert(prompt@ =~= spec_build(self.spec_language(), raw@, view_opt_str(context)));
        }
        prompt
    }

    /// Build a `(system message, user message)` pair for chat endpoints:
    /// the system message is the instruction, and the user message holds
    /// the few-shot examples, the optional context block, and the raw STT
    /// output with the correction cue.
    pub fn build_chat(&self, raw: &str, context: Option<&str>) -> (r: (String, String))
        ensures
            r.0@ == spec_system_instruction(self.spec_language()),
            r.1@ == spec_build_user(self.spec_language(), raw@, view_opt_str(context)),
    {
        let system_msg = self.system_instruction().to_owned();

        let mut user_msg = String::new();
        user_msg.append(self.few_shot_examples());
        match context {
            Some(ctx) => {
                user_msg.append("\n");
                user_msg.append(ctx);
            },
            None => {},
        }
        user_msg.append("\nOriginal STT output:\n");
        user_msg.append(raw);
        user_msg.append("\n\nCorrected:\n");
        proof {
            assert(user_msg@ =~= spec_build_user(self.spec_language(), raw@, view_opt_str(context)));
        }

        (system_msg, user_msg)
    }

    /// The system instruction for this builder's language.
    pub fn system_instruction(&self) -> (r: &'static str)
        ensures
            r@ == spec_system_instruction(self.spec_language()),
    {
        if str_eq(self.language.as_str(), "th") {
            SYSTEM_INSTRUCTION_TH
        } else {
            SYSTEM_INSTRUCTION_EN
        }
    }

    /// The few-shot examples for this builder's language.
    pub fn few_shot_examples(&self) -> (r: &'static str)
        ensures
            r@ == spec_few_shot_examples(self.spec_language()),
    {
        if str_eq(self.language.as_str(), "th") {
            FEW_SHOT_EXAMPLES_TH
        } else {
            FEW_SHOT_EXAMPLES_EN
        }
    }
}

} // verus!
