//! User-defined vocabulary for STT correction.
//!
//! [`UserVocabulary`] holds `(error, correction)` pairs with usage counters.
//! Persistence is an I/O concern outside the library; loaded entries enter
//! through [`UserVocabulary::from_entries`].

use vstd::prelude::*;

verus! {

/// A single user-defined correction entry.
#[derive(Debug, Clone)]
pub struct VocabEntry {
    /// The mis-transcribed form (as produced by STT).
    pub error: String,
    /// The desired corrected form.
    pub correction: String,
    /// How many times this entry has been confirmed or used.
    pub frequency: u32,
}

/// The first index in `s` whose entry has error string `name`, or `s.len()`
/// when there is none.
pub open spec fn find_entry(s: Seq<VocabEntry>, name: Seq<char>, from: int) -> int
    decreases s.len() - from when 0 <= from <= s.len()
{
    if from >= s.len() {
        s.len() as int
    } else if s[from].error@ == name {
        from
    } else {
        find_entry(s, name, from + 1)
    }
}

/// Insert `e` into `s` from the right, before every entry whose frequency is
/// strictly lower: the insertion step of a stable sort by descending
/// frequency.
pub open spec fn insert_desc(s: Seq<VocabEntry>, e: VocabEntry) -> Seq<VocabEntry>
    decreases s.len(),
{
    if s.len() == 0 {
        seq![e]
    } else if s.last().frequency >= e.frequency {
        s + seq![e]
    } else {
        insert_desc(s.drop_last(), e) + seq![s.last()]
    }
}

/// Stable sort by descending frequency: entries of equal frequency keep
/// their original order.
pub open spec fn sort_desc(s: Seq<VocabEntry>) -> Seq<VocabEntry>
    decreases s.len(),
{
    if s.len() == 0 {
        s
    } else {
        insert_desc(sort_desc(s.drop_last()), s.last())
    }
}

/// Where `insert_desc` places `e`: at the unique position `p` whose right
/// neighbours all have strictly lower frequency and whose left neighbour
/// (if any) does not.
proof fn lemma_insert_desc_split(s: Seq<VocabEntry>, e: VocabEntry, p: int)
    requires
        0 <= p <= s.len(),
        forall|k: int| p <= k < s.len() ==> s[k].frequency < e.frequency,
        p > 0 ==> s[p - 1].frequency >= e.frequency,
    ensures
        insert_desc(s, e) == s.take(p) + seq![e] + s.skip(p),
    decreases s.len(),
{
    if s.len() == 0 {
        assert(insert_desc(s, e) =~= s.take(p) + seq![e] + s.skip(p));
    } else if s.last().frequency >= e.frequency {
        assert(p == s.len());
        assert(s.take(p) =~= s);
        assert(insert_desc(s, e) =~= s.take(p) + seq![e] + s.skip(p));
    } else {
        lemma_insert_desc_split(s.drop_last(), e, p);
        assert(s.drop_last().take(p) =~= s.take(p));
        assert(insert_desc(s.drop_last(), e) + seq![s.last()] =~= s.take(p) + seq![e] + s.skip(p));
    }
}

/// Inserting adds one entry.
pub proof fn lemma_insert_desc_len(s: Seq<VocabEntry>, e: VocabEntry)
    ensures
        insert_desc(s, e).len() == s.len() + 1,
    decreases s.len(),
{
    if s.len() == 0 {
    } else if s.last().frequency >= e.frequency {
    } else {
        lemma_insert_desc_len(s.drop_last(), e);
    }
}

/// Sorting keeps the number of entries.
pub proof fn lemma_sort_desc_len(s: Seq<VocabEntry>)
    ensures
        sort_desc(s).len() == s.len(),
    decreases s.len(),
{
    if s.len() == 0 {
    } else {
        lemma_sort_desc_len(s.drop_last());
        lemma_insert_desc_len(sort_desc(s.drop_last()), s.last());
    }
}

/// Manages user-defined STT correction entries.
pub struct UserVocabulary {
    entries: Vec<VocabEntry>,
}

impl UserVocabulary {
    /// The entries, oldest first.
    pub closed spec fn view(&self) -> Seq<VocabEntry> {
        self.entries@
    }

    /// An empty vocabulary.
    pub fn new() -> (r: Self)
        ensures
            r@ == Seq::<VocabEntry>::empty(),
    {
        UserVocabulary { entries: Vec::new() }
    }

    /// A vocabulary holding previously persisted entries.
    pub fn from_entries(entries: Vec<VocabEntry>) -> (r: Self)
        ensures
            r@ == entries@,
    {
        UserVocabulary { entries }
    }

    /// The entries, for persistence.
    pub fn entries(&self) -> (r: &Vec<VocabEntry>)
        ensures
            r@ == self@,
    {
        &self.entries
    }

    /// Add or update a correction entry.
    ///
    /// If an entry with the same `error` already exists (the first such
    /// entry), its correction is replaced and its frequency counter grows by
    /// one (saturating); otherwise a new entry with frequency 1 is appended.
    #[verifier::loop_isolation(false)]
    pub fn add(&mut self, error: String, correction: String)
        ensures
            ({
                let j = find_entry(old(self)@, error@, 0);
                if j < old(self)@.len() {
                    final(self)@ == old(self)@.update(
                        j,
                        (VocabEntry {
                            error: old(self)@[j].error,
                            correction: correction,
                            frequency: (if old(self)@[j].frequency < u32::MAX {
                                (old(self)@[j].frequency + 1) as u32
                            } else {
                                u32::MAX
                            }),
                        }),
                    )
                } else {
                    final(self)@ == old(self)@.push(
                        (VocabEntry { error: error, correction: correction, frequency: 1 }),
                    )
                }
            }),
    {
        let ghost orig = self.entries@;
        let n = self.entries.len();
        let mut i: usize = 0;
        while i < n
            invariant
                i <= n,
                self.entries@ == orig,
                n == orig.len(),
                find_entry(orig, error@, 0) == find_entry(orig, error@, i as int),
            decreases n - i,
        {
            if self.entries[i].error == error {
                proof {
                    reveal_with_fuel(find_entry, 2);
                    assert(find_entry(orig, error@, i as int) == i as int);
                }
                let freq = self.entries[i].frequency;
                let bumped: u32 = if freq < u32::MAX {
                    freq + 1
                } else {
                    u32::MAX
                };
                let old_error = self.entries[i].error.clone();
                proof {
                    assert(old_error@ == orig[i as int].error@);
                }
                self.entries.set(
                    i,
                    VocabEntry { error: old_error, correction, frequency: bumped },
                );
                proof {
                    assert(self.entries@ =~= orig.update(
                        i as int,
                        (VocabEntry {
                            error: orig[i as int].error,
                            correction: self.entries@[i as int].correction,
                            frequency: bumped,
                        }),
                    ));
                }
                return ;
            }
            proof {
                reveal_with_fuel(find_entry, 2);
            }
            i = i + 1;
        }
        proof {
            reveal_with_fuel(find_entry, 2);
            assert(find_entry(orig, error@, n as int) == n as int);
        }
        self.entries.push(VocabEntry { error, correction, frequency: 1 });
    }

    /// The top-`n` entries by frequency as `(error, correction)` pairs,
    /// highest frequency first; entries of equal frequency keep their
    /// insertion order.
    #[verifier::loop_isolation(false)]
    pub fn top_entries(&self, n: usize) -> (r: Vec<(String, String)>)
        ensures
            r@.len() == (if n <= self@.len() {
                n as int
            } else {
                self@.len() as int
            }),
            forall|i: int|
                0 <= i < r@.len() ==> ((#[trigger] r@[i]).0@ == sort_desc(self@)[i].error@ && r@[
                    i
                ].1@ == sort_desc(self@)[i].correction@),
    {
        let len = self.entries.len();
        let mut sorted: Vec<VocabEntry> = Vec::new();
        let mut i: usize = 0;
        while i < len
            invariant
                i <= len,
                sorted@ == sort_desc(self@.take(i as int)),
            decreases len - i,
        {
            let e = VocabEntry {
                error: self.entries[i].error.clone(),
                correction: self.entries[i].correction.clone(),
                frequency: self.entries[i].frequency,
            };
            proof {
                assert(e == self@[i as int]);
            }
            // Scan from the right for the insertion point: past every entry
            // with a strictly lower frequency.
            let mut pos: usize = sorted.len();
            while pos > 0 && sorted[pos - 1].frequency < e.frequency
                invariant
                    pos <= sorted@.len(),
                    forall|k: int| pos <= k < sorted@.len() ==> sorted@[k].frequency < e.frequency,
                decreases pos,
            {
                pos = pos - 1;
            }
            let ghost before = sorted@;
            sorted.insert(pos, e);
            proof {
                lemma_insert_desc_split(before, e, pos as int);
                assert(self@.take(i + 1 as int).drop_last() =~= self@.take(i as int));
                assert(insert_desc(before, e) =~= before.take(pos as int) + seq![e] + before.skip(
                    pos as int,
                ));
                assert(sorted@ =~= before.take(pos as int) + seq![e] + before.skip(pos as int));
                assert(e == self@.take(i + 1 as int).last());
                assert(sorted@ == sort_desc(self@.take(i + 1 as int)));
            }
            i = i + 1;
        }
        proof {
            assert(self@.take(len as int) =~= self@);
        }

        proof {
            lemma_sort_desc_len(self@);
        }
        let mut r: Vec<(String, String)> = Vec::new();
        let mut k: usize = 0;
        let take_n: usize = if n <= len {
            n
        } else {
            len
        };
        while k < take_n
            invariant
                k <= take_n,
                take_n <= sorted@.len(),
                sorted@ == sort_desc(self@),
                r@.len() == k,
                forall|j: int|
                    0 <= j < k ==> ((#[trigger] r@[j]).0@ == sort_desc(self@)[j].error@ && r@[
                        j
                    ].1@ == sort_desc(self@)[j].correction@),
            decreases take_n - k,
        {
            let e0 = sorted[k].error.clone();
            let e1 = sorted[k].correction.clone();
            let ghost prev = r@;
            r.push((e0, e1));
            proof {
                assert forall|j: int|
                    0 <= j < k + 1 implies ((#[trigger] r@[j]).0@ == sort_desc(self@)[j].error@
                    && r@[j].1@ == sort_desc(self@)[j].correction@) by {
                    if j < k {
                        assert(r@[j] == prev[j]);
                    } else {
                        assert(r@[j] == (e0, e1));
                    }
                }
            }
            k = k + 1;
        }
        r
    }

    /// Total number of entries.
    pub fn len(&self) -> (r: usize)
        ensures
            r == self@.len(),
    {
        self.entries.len()
    }

    /// Returns `true` when there are no entries.
    pub fn is_empty(&self) -> (r: bool)
        ensures
            r == (self@.len() == 0),
    {
        self.entries.is_empty()
    }
}

} // verus!
