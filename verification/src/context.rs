//! Rolling-window context manager for LLM-based STT correction.
//!
//! [`ContextManager`] keeps the last N corrected sentences and produces a
//! compact context string embedded in every correction prompt: a detected
//! domain (if any), the top user vocabulary entries, and the previous
//! sentences oldest first.  The window clears automatically when the gap
//! since the last push exceeds the silence-reset threshold, modelling a
//! topic change.

use vstd::prelude::*;

use crate::buffer::recent;
use crate::domain::{spec_detect, DomainDetector};
use crate::vocabulary::{lemma_sort_desc_len, sort_desc, UserVocabulary, VocabEntry};

verus! {

/// The window's sentences joined with single spaces.
pub open spec fn spec_join(w: Seq<Seq<char>>) -> Seq<char>
    decreases w.len(),
{
    if w.len() == 0 {
        Seq::empty()
    } else if w.len() == 1 {
        w[0]
    } else {
        spec_join(w.drop_last()) + " "@ + w.last()
    }
}

/// The optional domain line of the context string.
pub open spec fn domain_part(all_text: Seq<char>) -> Seq<char> {
    match spec_detect(all_text) {
        Some(d) => "Domain: "@ + d + "\n"@,
        None => Seq::empty(),
    }
}

/// One bullet line per vocabulary entry.
pub open spec fn vocab_lines(s: Seq<VocabEntry>) -> Seq<char>
    decreases s.len(),
{
    if s.len() == 0 {
        Seq::empty()
    } else {
        vocab_lines(s.drop_last()) + "- \""@ + s.last().error@ + "\" → \""@ + s.last().correction@
            + "\"\n"@
    }
}

/// The optional user-vocabulary section: the top five entries by frequency.
pub open spec fn vocab_part(vocab: Seq<VocabEntry>) -> Seq<char> {
    let top = sort_desc(vocab).take(
        if vocab.len() <= 5 {
            vocab.len() as int
        } else {
            5
        },
    );
    if top.len() == 0 {
        Seq::empty()
    } else {
        "User-specific terms:\n"@ + vocab_lines(top)
    }
}

/// One bullet line per window sentence, oldest first.
pub open spec fn sentence_lines(w: Seq<Seq<char>>) -> Seq<char>
    decreases w.len(),
{
    if w.len() == 0 {
        Seq::empty()
    } else {
        sentence_lines(w.drop_last()) + "- "@ + w.last() + "\n"@
    }
}

/// The context string for a window and vocabulary: `None` when the window
/// is empty, otherwise the domain line, the vocabulary section and the
/// previous sentences.
pub open spec fn spec_build_context(w: Seq<Seq<char>>, vocab: Seq<VocabEntry>) -> Option<
    Seq<char>,
> {
    if w.len() == 0 {
        None
    } else {
        Some(
            domain_part(spec_join(w)) + vocab_part(vocab) + "Previous context:\n"@
                + sentence_lines(w),
        )
    }
}

/// Maintains a rolling window of corrected sentences for context injection.
pub struct ContextManager {
    sentences: Vec<String>,
    max_sentences: usize,
    domain_detector: DomainDetector,
    user_vocab: UserVocabulary,
    last_activity_ms: u64,
    silence_reset_ms: u64,
}

/// Milliseconds since the Unix epoch.
///
/// Relies on `std::time::SystemTime::now`; the result depends on the system
/// clock, so nothing is promised of it.  A clock before the epoch yields 0.
#[verifier::external_body]
fn now_millis() -> u64 {
    match std::time::SystemTime::now().duration_since(std::time::UNIX_EPOCH) {
        Ok(d) => d.as_millis() as u64,
        Err(_) => 0,
    }
}

impl ContextManager {
    /// The window's sentences, oldest first.
    pub closed spec fn window(&self) -> Seq<Seq<char>> {
        self.sentences.deep_view()
    }

    /// The configured maximum window size.
    pub closed spec fn spec_max_sentences(&self) -> usize {
        self.max_sentences
    }

    /// The user vocabulary entries.
    pub closed spec fn spec_vocab(&self) -> Seq<VocabEntry> {
        self.user_vocab@
    }

    /// The time of the last push, in milliseconds.
    pub closed spec fn spec_last_activity_ms(&self) -> u64 {
        self.last_activity_ms
    }

    /// The silence gap, in milliseconds, beyond which the window clears.
    pub closed spec fn spec_silence_reset_ms(&self) -> u64 {
        self.silence_reset_ms
    }

    /// Create a context manager with the default settings: a window of 3
    /// sentences, a 120-second silence reset, and an empty vocabulary.
    pub fn new() -> (r: Self)
        ensures
            r.window() == Seq::<Seq<char>>::empty(),
            r.spec_max_sentences() == 3,
            r.spec_silence_reset_ms() == 120000,
            r.spec_vocab() == Seq::<VocabEntry>::empty(),
            r.spec_last_activity_ms() == 0,
    {
        let r = ContextManager {
            sentences: Vec::new(),
            max_sentences: 3,
            domain_detector: DomainDetector::new(),
            user_vocab: UserVocabulary::new(),
            last_activity_ms: 0,
            silence_reset_ms: 120000,
        };
        proof {
            assert(r.window() =~= Seq::<Seq<char>>::empty());
        }
        r
    }

    /// Create a context manager with custom limits.  A reset threshold
    /// beyond what milliseconds can express saturates.
    pub fn with_capacity(max_sentences: usize, silence_reset_secs: u64) -> (r: Self)
        ensures
            r.window() == Seq::<Seq<char>>::empty(),
            r.spec_max_sentences() == max_sentences,
            r.spec_silence_reset_ms() == (if silence_reset_secs <= u64::MAX / 1000 {
                silence_reset_secs * 1000
            } else {
                u64::MAX as int
            }),
            r.spec_vocab() == Seq::<VocabEntry>::empty(),
            r.spec_last_activity_ms() == 0,
    {
        let reset_ms: u64 = if silence_reset_secs <= u64::MAX / 1000 {
            silence_reset_secs * 1000
        } else {
            u64::MAX
        };
        let r = ContextManager {
            sentences: Vec::new(),
            max_sentences,
            domain_detector: DomainDetector::new(),
            user_vocab: UserVocabulary::new(),
            last_activity_ms: 0,
            silence_reset_ms: reset_ms,
        };
        proof {
            assert(r.window() =~= Seq::<Seq<char>>::empty());
        }
        r
    }

    /// Install a user vocabulary (for example, one loaded from disk).
    pub fn set_vocabulary(&mut self, vocab: UserVocabulary)
        ensures
            final(self).spec_vocab() == vocab@,
            final(self).window() == old(self).window(),
            final(self).spec_max_sentences() == old(self).spec_max_sentences(),
            final(self).spec_silence_reset_ms() == old(self).spec_silence_reset_ms(),
            final(self).spec_last_activity_ms() == old(self).spec_last_activity_ms(),
    {
        self.user_vocab = vocab;
    }

    /// Add a corrected sentence to the rolling window, at time `now_ms`.
    ///
    /// If the gap since the last push exceeds the silence-reset threshold
    /// the window is cleared first (topic-change heuristic).  The oldest
    /// entries are dropped once the window exceeds its maximum size.
    #[verifier::loop_isolation(false)]
    pub fn push_sentence_at(&mut self, sentence: String, now_ms: u64)
        ensures
            final(self).window() == recent(
                (if now_ms > old(self).spec_last_activity_ms()
                    + old(self).spec_silence_reset_ms() {
                    Seq::<Seq<char>>::empty()
                } else {
                    old(self).window()
                }).push(sentence@),
                old(self).spec_max_sentences() as int,
            ),
            final(self).spec_last_activity_ms() == now_ms,
            final(self).spec_max_sentences() == old(self).spec_max_sentences(),
            final(self).spec_silence_reset_ms() == old(self).spec_silence_reset_ms(),
            final(self).spec_vocab() == old(self).spec_vocab(),
    {
        // Silence-based context reset.
        if now_ms > self.last_activity_ms {
            let gap = now_ms - self.last_activity_ms;
            if gap > self.silence_reset_ms {
                self.sentences.clear();
                proof {
                    assert(self.sentences.deep_view() =~= Seq::<Seq<char>>::empty());
                }
            }
        }
        let ghost base = self.sentences.deep_view();
        let ghost pushed = base.push(sentence@);
        let ghost max = self.max_sentences as int;

        self.sentences.push(sentence);
        proof {
            assert(self.sentences.deep_view() =~= pushed);
        }

        // Trim to the maximum window size.
        while self.sentences.len() > self.max_sentences
            invariant
                self.max_sentences as int == max,
                self.user_vocab == old(self).user_vocab,
                self.silence_reset_ms == old(self).silence_reset_ms,
                recent(self.sentences.deep_view(), max) == recent(pushed, max),
            decreases self.sentences@.len(),
        {
            let ghost before = self.sentences.deep_view();
            self.sentences.remove(0);
            proof {
                assert(self.sentences.deep_view() =~= before.drop_first());
                assert(recent(before.drop_first(), max) =~= recent(before, max));
            }
        }
        proof {
            assert(self.sentences.deep_view() =~= recent(pushed, max));
        }

        self.last_activity_ms = now_ms;
    }

    /// Add a corrected sentence to the rolling window, timed by the system
    /// clock.  The window afterwards holds the most recent sentences as
    /// [`push_sentence_at`](Self::push_sentence_at) describes; whether the
    /// silence reset fired depends on the clock, so either outcome may be
    /// observed.
    pub fn push_sentence(&mut self, sentence: String)
        ensures
            final(self).window() == recent(
                old(self).window().push(sentence@),
                old(self).spec_max_sentences() as int,
            ) || final(self).window() == recent(
                Seq::<Seq<char>>::empty().push(sentence@),
                old(self).spec_max_sentences() as int,
            ),
            final(self).spec_max_sentences() == old(self).spec_max_sentences(),
            final(self).spec_silence_reset_ms() == old(self).spec_silence_reset_ms(),
            final(self).spec_vocab() == old(self).spec_vocab(),
    {
        let now = now_millis();
        self.push_sentence_at(sentence, now);
    }

    /// Clear the rolling window immediately.
    pub fn reset(&mut self)
        ensures
            final(self).window() == Seq::<Seq<char>>::empty(),
            final(self).spec_max_sentences() == old(self).spec_max_sentences(),
            final(self).spec_silence_reset_ms() == old(self).spec_silence_reset_ms(),
            final(self).spec_vocab() == old(self).spec_vocab(),
            final(self).spec_last_activity_ms() == old(self).spec_last_activity_ms(),
    {
        self.sentences.clear();
        proof {
            assert(self.sentences.deep_view() =~= Seq::<Seq<char>>::empty());
        }
    }

    /// Build the context string for the correction prompt: `None` when the
    /// window is empty, otherwise the domain hint, the top user vocabulary
    /// entries, and the previous sentences oldest first.
    #[verifier::loop_isolation(false)]
    #[verifier::rlimit(100)]
    pub fn build_context(&self) -> (r: Option<String>)
        ensures
            match r {
                Some(c) => spec_build_context(self.window(), self.spec_vocab()) == Some(c@),
                None => spec_build_context(self.window(), self.spec_vocab()) is None,
            },
    {
        let count = self.sentences.len();
        if count == 0 {
            return None;
        }

        // Join the window for domain detection.
        let mut all_text = String::new();
        let mut i: usize = 0;
        while i < count
            invariant
                i <= count,
                count == self.window().len(),
                all_text@ == spec_join(self.window().take(i as int)),
            decreases count - i,
        {
            if i > 0 {
                all_text.append(" ");
            }
            all_text.append(self.sentences[i].as_str());
            proof {
                let w = self.window();
                assert(w.take(i + 1 as int).drop_last() =~= w.take(i as int));
                assert(w.take(i + 1 as int).last() == w[i as int]);
                if i == 0 {
                    assert(all_text@ =~= w.take(1)[0]);
                } else {
                    assert(all_text@ =~= spec_join(w.take(i as int)) + " "@ + w[i as int]);
                }
                assert(all_text@ =~= spec_join(w.take(i + 1 as int)));
            }
            i = i + 1;
        }
        proof {
            assert(self.window().take(count as int) =~= self.window());
        }

        let mut ctx = String::new();

        // Domain hint.
        match self.domain_detector.detect(all_text.as_str()) {
            Some(domain) => {
                ctx.append("Domain: ");
                ctx.append(domain.as_str());
                ctx.append("\n");
            },
            None => {},
        }
        proof {
            assert(ctx@ =~= domain_part(spec_join(self.window())));
        }
        let ghost after_domain = ctx@;

        // User vocabulary (top five).
        let vocab = self.user_vocab.top_entries(5);
        let ghost top = sort_desc(self.spec_vocab()).take(
            if self.spec_vocab().len() <= 5 {
                self.spec_vocab().len() as int
            } else {
                5
            },
        );
        proof {
            lemma_sort_desc_len(self.spec_vocab());
            assert(vocab@.len() == top.len());
        }
        if vocab.len() > 0 {
            ctx.append("User-specific terms:\n");
            let mut j: usize = 0;
            while j < vocab.len()
                invariant
                    j <= vocab@.len(),
                    vocab@.len() == top.len(),
                    ctx@ == after_domain + "User-specific terms:\n"@ + vocab_lines(
                        top.take(j as int),
                    ),
                decreases vocab@.len() - j,
            {
                ctx.append("- \"");
                ctx.append(vocab[j].0.as_str());
                ctx.append("\" → \"");
                ctx.append(vocab[j].1.as_str());
                ctx.append("\"\n");
                proof {
                    assert(top.take(j + 1 as int).drop_last() =~= top.take(j as int));
                    assert(top.take(j + 1 as int).last() == top[j as int]);
                    assert(vocab@[j as int].0@ == top[j as int].error@);
                    assert(vocab@[j as int].1@ == top[j as int].correction@);
                    assert(ctx@ =~= after_domain + "User-specific terms:\n"@ + vocab_lines(
                        top.take(j + 1 as int),
                    ));
                }
                j = j + 1;
            }
            proof {
                assert(top.take(top.len() as int) =~= top);
            }
        }
        proof {
            assert(ctx@ =~= after_domain + vocab_part(self.spec_vocab()));
        }
        let ghost after_vocab = ctx@;

        // Previous sentences, oldest first.
        ctx.append("Previous context:\n");
        let mut k: usize = 0;
        while k < count
            invariant
                k <= count,
                count == self.window().len(),
                ctx@ == after_vocab + "Previous context:\n"@ + sentence_lines(
                    self.window().take(k as int),
                ),
            decreases count - k,
        {
            ctx.append("- ");
            ctx.append(self.sentences[k].as_str());
            ctx.append("\n");
            proof {
                let w = self.window();
                assert(w.take(k + 1 as int).drop_last() =~= w.take(k as int));
                assert(w.take(k + 1 as int).last() == w[k as int]);
                assert(ctx@ =~= after_vocab + "Previous context:\n"@ + sentence_lines(
                    w.take(k + 1 as int),
                ));
            }
            k = k + 1;
        }
        proof {
            assert(self.window().take(count as int) =~= self.window());
            assert(ctx@ =~= domain_part(spec_join(self.window())) + vocab_part(self.spec_vocab())
                + "Previous context:\n"@ + sentence_lines(self.window()));
        }

        Some(ctx)
    }

    /// Number of sentences currently held in the window.
    pub fn len(&self) -> (r: usize)
        ensures
            r == self.window().len(),
    {
        self.sentences.len()
    }

    /// Returns `true` when the window is empty.
    pub fn is_empty(&self) -> (r: bool)
        ensures
            r == (self.window().len() == 0),
    {
        self.sentences.is_empty()
    }
}

} // verus!
