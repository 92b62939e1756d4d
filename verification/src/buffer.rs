//! Fixed-capacity circular (ring) buffer for audio samples.
//!
//! When the buffer is full, new samples overwrite the oldest data so that the
//! most-recent `capacity` samples are always available.  This matches the
//! push-to-talk scenario, where the tail of a long recording matters, not the
//! head.

use vstd::prelude::*;

verus! {

/// The suffix of `s` holding at most the `cap` most recent elements.
///
/// This is the abstract overflow rule of the ring buffer: of everything ever
/// pushed, only the last `cap` elements are retained, in original order.
pub open spec fn recent<T>(s: Seq<T>, cap: int) -> Seq<T> {
    if s.len() <= cap {
        s
    } else {
        s.skip(s.len() - cap)
    }
}

/// What is retained never exceeds the bound: the most recent `cap` elements
/// of `s` are all of `s` when it fits, and exactly `cap` elements otherwise.
pub proof fn lemma_recent_len<T>(s: Seq<T>, cap: int)
    requires
        cap >= 0,
    ensures
        recent(s, cap).len() == (if s.len() <= cap {
            s.len() as int
        } else {
            cap
        }),
{
}

/// Retaining the most recent `cap` elements commutes with appending: keeping
/// the tail of `s`, appending `t`, and keeping the tail again retains exactly
/// the tail of `s + t`.  Hence any sequence of `push_slice` calls leaves the
/// buffer holding the most recent `cap` samples of everything pushed, in
/// original order.
pub proof fn lemma_recent_compose<T>(s: Seq<T>, t: Seq<T>, cap: int)
    requires
        cap >= 0,
    ensures
        recent(recent(s, cap) + t, cap) == recent(s + t, cap),
{
    let lhs = recent(recent(s, cap) + t, cap);
    let rhs = recent(s + t, cap);
    assert(lhs =~= rhs);
}

/// A fixed-capacity circular buffer.
///
/// Generic over `T: Copy` so it can store any scalar sample type; the audio
/// pipeline uses `RingBuffer<i16>` (fixed-point samples).
///
/// ## Overflow behaviour
///
/// When [`push_slice`](Self::push_slice) would exceed `capacity`, the oldest
/// samples are silently overwritten.  The buffer never allocates beyond its
/// capacity.
pub struct RingBuffer<T> {
    buf: Vec<T>,
    capacity: usize,
    /// Index of the next write position (wraps around `capacity`).
    write_pos: usize,
    /// Number of valid samples currently stored (at most `capacity`).
    len: usize,
}

impl<T: Copy> RingBuffer<T> {
    /// Internal consistency: either the storage is still growing towards
    /// `capacity` (writes append), or it is full and writes wrap around.
    pub closed spec fn wf(&self) -> bool {
        &&& self.capacity > 0
        &&& (if self.buf@.len() < self.capacity {
            &&& self.len == self.buf@.len()
            &&& self.write_pos == self.buf@.len()
        } else {
            &&& self.buf@.len() == self.capacity
            &&& self.len == self.capacity
            &&& self.write_pos < self.capacity
        })
    }

    /// The stored samples in chronological (oldest-first) order.
    pub closed spec fn view(&self) -> Seq<T> {
        if self.buf@.len() < self.capacity {
            self.buf@
        } else {
            self.buf@.skip(self.write_pos as int) + self.buf@.take(self.write_pos as int)
        }
    }

    /// Maximum number of samples the buffer can hold, as a spec value.
    pub closed spec fn spec_capacity(&self) -> usize {
        self.capacity
    }

    proof fn lemma_view_len(&self)
        requires
            self.wf(),
        ensures
            self@.len() == self.len,
    {
    }

    /// The buffer never exceeds its configured capacity.
    pub proof fn lemma_within_capacity(&self)
        requires
            self.wf(),
        ensures
            self@.len() <= self.spec_capacity(),
    {
    }

    /// Create a new ring buffer with the given `capacity`.
    ///
    /// A capacity of zero is a programming error and is excluded by contract.
    pub fn new(capacity: usize) -> (r: Self)
        requires
            capacity > 0,
        ensures
            r.wf(),
            r@ == Seq::<T>::empty(),
            r.spec_capacity() == capacity,
    {
        Self { buf: Vec::new(), capacity, write_pos: 0, len: 0 }
    }

    /// Append one sample, overwriting the oldest when full.
    fn push_one(&mut self, item: T)
        requires
            old(self).wf(),
        ensures
            final(self).wf(),
            final(self).spec_capacity() == old(self).spec_capacity(),
            final(self)@ == recent(old(self)@ + seq![item], final(self).spec_capacity() as int),
    {
        let ghost prev = self@;
        let ghost cap = self.capacity as int;
        if self.buf.len() < self.capacity {
            self.buf.push(item);
            self.write_pos = self.write_pos + 1;
            if self.write_pos == self.capacity {
                self.write_pos = 0;
            }
            self.len = self.len + 1;
            proof {
                if self.buf@.len() < self.capacity {
                    assert(self@ =~= recent(prev + seq![item], cap));
                } else {
                    assert(self@ =~= self.buf@);
                    assert(self@ =~= recent(prev + seq![item], cap));
                }
            }
        } else {
            self.buf.set(self.write_pos, item);
            self.write_pos = self.write_pos + 1;
            if self.write_pos == self.capacity {
                self.write_pos = 0;
            }
            proof {
                assert(self@ =~= recent(prev + seq![item], cap));
            }
        }
    }

    /// Append `data` to the buffer.
    ///
    /// If the total number of samples exceeds `capacity`, the oldest samples
    /// are overwritten (circular behaviour): afterwards the buffer holds the
    /// most recent `capacity` samples of the old contents followed by `data`,
    /// in original order.
    #[verifier::loop_isolation(false)]
    pub fn push_slice(&mut self, data: &[T])
        requires
            old(self).wf(),
        ensures
            final(self).wf(),
            final(self).spec_capacity() == old(self).spec_capacity(),
            final(self)@ == recent(old(self)@ + data@, final(self).spec_capacity() as int),
    {
        let ghost orig = self@;
        let ghost cap = self.capacity as int;
        let mut i: usize = 0;
        while i < data.len()
            invariant
                self.wf(),
                self.spec_capacity() == old(self).spec_capacity(),
                i <= data@.len(),
                self@ == recent(orig + data@.take(i as int), cap),
            decreases data@.len() - i,
        {
            self.push_one(data[i]);
            proof {
                lemma_recent_compose(orig + data@.take(i as int), seq![data@[i as int]], cap);
                assert(orig + data@.take(i as int) + seq![data@[i as int]]
                    =~= orig + data@.take(i + 1 as int));
            }
            i = i + 1;
        }
        proof {
            assert(data@.take(data@.len() as int) =~= data@);
        }
    }

    /// Drain all stored samples in chronological order and reset the buffer.
    ///
    /// After this call the buffer is empty and reusable.
    #[verifier::loop_isolation(false)]
    pub fn drain(&mut self) -> (r: Vec<T>)
        requires
            old(self).wf(),
        ensures
            final(self).wf(),
            final(self).spec_capacity() == old(self).spec_capacity(),
            r@ == old(self)@,
            final(self)@ == Seq::<T>::empty(),
    {
        proof {
            self.lemma_view_len();
        }
        let ghost orig = self@;
        if self.len == 0 {
            proof {
                assert(orig =~= Seq::<T>::empty());
            }
            return Vec::new();
        }

        // When the storage has not yet grown to capacity, valid data starts at
        // index 0.  When it is full (overflow may have occurred), the oldest
        // sample sits at `write_pos`, the position the next write would use.
        let read_pos: usize = if self.buf.len() < self.capacity {
            0
        } else {
            self.write_pos
        };

        let mut result: Vec<T> = Vec::new();
        let mut i: usize = 0;
        while i < self.len
            invariant
                self.wf(),
                self == old(self),
                orig == self@,
                read_pos == (if self.buf@.len() < self.spec_capacity() {
                    0int
                } else {
                    self.write_pos as int
                }),
                i <= self.len,
                orig.len() == self.len,
                result@ == orig.take(i as int),
            decreases self.len - i,
        {
            let rem: usize = self.capacity - read_pos;
            let idx: usize = if i < rem {
                read_pos + i
            } else {
                i - rem
            };
            result.push(self.buf[idx]);
            proof {
                assert(result@ =~= orig.take(i + 1 as int));
            }
            i = i + 1;
        }
        proof {
            assert(result@ =~= orig);
        }
        self.clear();
        result
    }

    /// Discard all samples and reset the write position.
    pub fn clear(&mut self)
        requires
            old(self).wf(),
        ensures
            final(self).wf(),
            final(self).spec_capacity() == old(self).spec_capacity(),
            final(self)@ == Seq::<T>::empty(),
    {
        self.buf.clear();
        self.write_pos = 0;
        self.len = 0;
    }

    /// Number of valid samples currently stored.
    pub fn len(&self) -> (r: usize)
        requires
            self.wf(),
        ensures
            r == self@.len(),
    {
        proof {
            self.lemma_view_len();
        }
        self.len
    }

    /// Returns `true` when the buffer contains no samples.
    pub fn is_empty(&self) -> (r: bool)
        requires
            self.wf(),
        ensures
            r == (self@.len() == 0),
    {
        proof {
            self.lemma_view_len();
        }
        self.len == 0
    }

    /// Maximum number of samples the buffer can hold.
    pub fn capacity(&self) -> (r: usize)
        requires
            self.wf(),
        ensures
            r == self.spec_capacity(),
    {
        self.capacity
    }

    /// Returns `true` when the buffer has been filled to capacity, so the
    /// next push would overwrite the oldest sample.
    pub fn is_full(&self) -> (r: bool)
        requires
            self.wf(),
        ensures
            r == (self@.len() == self.spec_capacity()),
    {
        proof {
            self.lemma_view_len();
        }
        self.len == self.capacity
    }

    /// Current recording duration in milliseconds, assuming `sample_rate` Hz
    /// mono samples.  A zero sample rate yields zero.
    pub fn duration_ms(&self, sample_rate: u32) -> (r: u64)
        requires
            self.wf(),
            self@.len() * 1000 <= u64::MAX,
        ensures
            r == (if sample_rate == 0 {
                0int
            } else {
                (self@.len() as int) * 1000 / (sample_rate as int)
            }),
    {
        proof {
            self.lemma_view_len();
        }
        if sample_rate == 0 {
            return 0;
        }
        (self.len as u64) * 1000 / (sample_rate as u64)
    }
}

} // verus!
