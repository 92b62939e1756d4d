//! Waveform amplitude data for a live recording visualisation.
//!
//! [`WaveformData::compute`] divides a clip into equal-width chunks and
//! renders the RMS amplitude of each as one bar, in fixed-point units of
//! full scale, clamped to full scale.  Chunks beyond the clip are rendered
//! as zero bars.

use vstd::prelude::*;

use crate::vad::{frame_count, frame_seq, lemma_frame_in_range, sum_squares};

verus! {

/// `r` is the integer square root of `n`.
pub open spec fn is_isqrt(n: int, r: int) -> bool {
    &&& r >= 0
    &&& r * r <= n
    &&& n < (r + 1) * (r + 1)
}

/// The integer square root, defined by counting up.
pub open spec fn spec_isqrt(n: nat) -> nat
    decreases n,
{
    if n == 0 {
        0
    } else {
        let r = spec_isqrt((n - 1) as nat);
        if (r + 1) * (r + 1) <= n {
            r + 1
        } else {
            r
        }
    }
}

/// The counting definition meets the square-root predicate.
pub proof fn lemma_isqrt_correct(n: nat)
    ensures
        is_isqrt(n as int, spec_isqrt(n) as int),
    decreases n,
{
    if n > 0 {
        lemma_isqrt_correct((n - 1) as nat);
        let r = spec_isqrt((n - 1) as nat);
        if (r + 1) * (r + 1) <= n {
            assert((r as int + 2) * (r as int + 2) > (r as int + 1) * (r as int + 1))
                by (nonlinear_arith)
                requires
                    r as int >= 0,
            ;
        }
    }
}

/// The square-root predicate has a unique solution.
pub proof fn lemma_isqrt_unique(n: int, a: int, b: int)
    requires
        is_isqrt(n, a),
        is_isqrt(n, b),
    ensures
        a == b,
{
    if a < b {
        assert(b * b > n) by (nonlinear_arith)
            requires
                a >= 0,
                b >= a + 1,
                n < (a + 1) * (a + 1),
        ;
    }
    if b < a {
        assert(a * a > n) by (nonlinear_arith)
            requires
                b >= 0,
                a >= b + 1,
                n < (b + 1) * (b + 1),
        ;
    }
}

/// Integer square root by binary search.
#[verifier::loop_isolation(false)]
fn isqrt64(n: u64) -> (r: u64)
    ensures
        r as nat == spec_isqrt(n as nat),
{
    let mut lo: u64 = 0;
    let mut hi: u64 = 0xFFFFFFFF;
    if n < 0x100000000 {
        hi = n;
    }
    proof {
        if (n as int) < 0x100000000 {
            assert(((hi as int) + 1) * ((hi as int) + 1) > n as int) by (nonlinear_arith)
                requires
                    n as int >= 0,
                    n as int <= hi as int,
            ;
        } else {
            assert(((hi as int) + 1) * ((hi as int) + 1) > n as int) by (nonlinear_arith)
                requires
                    hi as int == 0xFFFFFFFF,
                    n as int <= 0xFFFFFFFFFFFFFFFF,
            ;
        }
    }
    while lo < hi
        invariant
            0 <= lo <= hi,
            hi <= 0xFFFFFFFF,
            (lo as int) * (lo as int) <= n as int,
            ((hi as int) + 1) * ((hi as int) + 1) > n as int,
        decreases hi - lo,
    {
        let mid: u64 = lo + (hi - lo + 1) / 2;
        proof {
            assert((mid as u128) * (mid as u128) <= 0x100000000u128 * 0x100000000u128)
                by (nonlinear_arith)
                requires
                    mid as u128 <= 0x100000000u128,
            ;
        }
        let sq: u128 = (mid as u128) * (mid as u128);
        if sq <= n as u128 {
            lo = mid;
        } else {
            hi = mid - 1;
            proof {
                assert(((hi as int) + 1) * ((hi as int) + 1) > n as int);
            }
        }
    }
    proof {
        lemma_isqrt_correct(n as nat);
        lemma_isqrt_unique(n as int, lo as int, spec_isqrt(n as nat) as int);
    }
    lo
}

/// The chunk width used for `num_bars` bars over `len` samples: an equal
/// share, at least one sample.
pub open spec fn chunk_width(len: int, num_bars: int) -> int {
    if len / num_bars >= 1 {
        len / num_bars
    } else {
        1
    }
}

/// One bar: the RMS amplitude of a non-empty chunk, clamped to full scale.
pub open spec fn bar_value(c: Seq<i16>) -> u16 {
    let rms = spec_isqrt((sum_squares(c) / c.len() as int) as nat);
    if rms <= 10000 {
        rms as u16
    } else {
        10000
    }
}

/// The bars of a clip: the RMS of each chunk that lies within the clip
/// (at most `num_bars` of them), then zero bars up to `num_bars`.
pub open spec fn spec_compute(s: Seq<i16>, num_bars: int) -> Seq<u16> {
    if s.len() == 0 {
        Seq::new(num_bars as nat, |i: int| 0u16)
    } else {
        let cs = chunk_width(s.len() as int, num_bars);
        let chunks = frame_count(s.len() as int, cs);
        Seq::new(
            num_bars as nat,
            |i: int|
                if i < chunks {
                    bar_value(frame_seq(s, cs, i))
                } else {
                    0u16
                },
        )
    }
}

/// Amplitude snapshot for a bar-chart visualisation.
///
/// Each element of `bars` is an RMS amplitude in fixed-point units of full
/// scale (10 000 units stand for 1.0), clamped to full scale.
#[derive(Debug, Clone)]
pub struct WaveformData {
    /// RMS amplitude per bar.
    pub bars: Vec<u16>,
}

impl WaveformData {
    /// Compute `num_bars` RMS amplitude values from `audio`.
    ///
    /// The clip is divided into `num_bars` equal-width chunks (each at least
    /// one sample); the RMS of each chunk within the clip becomes one bar,
    /// and any remaining bars are zero.  Zero `num_bars` yields no bars.
    #[verifier::loop_isolation(false)]
    pub fn compute(audio: &[i16], num_bars: usize) -> (r: Self)
        ensures
            r.bars@ == spec_compute(audio@, num_bars as int),
    {
        if num_bars == 0 {
            let r = WaveformData { bars: Vec::new() };
            proof {
                assert(r.bars@ =~= spec_compute(audio@, 0));
            }
            return r;
        }

        let len: usize = audio.len();
        let mut bars: Vec<u16> = Vec::new();

        if len == 0 {
            let mut i: usize = 0;
            while i < num_bars
                invariant
                    i <= num_bars,
                    bars@ =~= Seq::new(i as nat, |k: int| 0u16),
                decreases num_bars - i,
            {
                bars.push(0);
                proof {
                    assert(bars@ =~= Seq::new((i + 1) as nat, |k: int| 0u16));
                }
                i = i + 1;
            }
            let r = WaveformData { bars };
            proof {
                assert(r.bars@ =~= spec_compute(audio@, num_bars as int));
            }
            return r;
        }

        let cs: usize = if len / num_bars >= 1 {
            len / num_bars
        } else {
            1
        };
        let ghost chunks = frame_count(len as int, cs as int);
        proof {
            lemma_frame_in_range(len as int, cs as int, 0);
        }

        // One bar per chunk that lies within the clip, at most `num_bars`.
        let mut st: usize = 0;
        let mut i: usize = 0;
        let ghost g = spec_compute(audio@, num_bars as int);
        while st < len && i < num_bars
            invariant
                0 <= i,
                i <= num_bars,
                i <= chunks,
                i < chunks ==> st == i * cs,
                i == chunks ==> st == len,
                st <= len,
                bars@.len() == i,
                forall|k: int| 0 <= k < i ==> bars@[k] == g[k],
            decreases len - st,
        {
            proof {
                lemma_frame_in_range(len as int, cs as int, i as int);
                assert(i < chunks);
            }
            let end: usize = if cs < len - st {
                st + cs
            } else {
                len
            };
            proof {
                assert((i as int + 1) * (cs as int) == st + cs) by (nonlinear_arith)
                    requires
                        st == (i as int) * (cs as int),
                ;
            }

            // Sum of squares over the chunk.
            let mut sum: u128 = 0;
            let mut k: usize = st;
            while k < end
                invariant
                    st <= k <= end,
                    end <= len,
                    len == audio@.len(),
                    sum == sum_squares(audio@.subrange(st as int, k as int)),
                    sum <= (k - st) as int * 0x40000000,
                decreases end - k,
            {
                let v: i64 = audio[k] as i64;
                proof {
                    assert(0 <= v * v <= 0x40000000) by (nonlinear_arith)
                        requires
                            -0x8000 <= v <= 0x7FFF,
                    ;
                    assert(sum + (v * v) as u128 <= (k + 1 - st) as int * 0x40000000);
                    assert((k + 1 - st) as int * 0x40000000 < 0xFFFFFFFFFFFFFFFFFFFFFFFFu128)
                        by (nonlinear_arith)
                        requires
                            k + 1 - st <= 0xFFFFFFFFFFFFFFFFu128,
                    ;
                }
                let sq: i64 = v * v;
                sum = sum + (sq as u128);
                proof {
                    assert(audio@.subrange(st as int, k + 1 as int).drop_last() =~= audio@.subrange(
                        st as int,
                        k as int,
                    ));
                }
                k = k + 1;
            }

            // The mean square fits u64: each square is at most 2^30.
            let flen: usize = end - st;
            proof {
                assert(sum / (flen as u128) <= 0x40000000u128) by (nonlinear_arith)
                    requires
                        flen as u128 >= 1,
                        sum <= (flen as u128) * 0x40000000,
                ;
            }
            let mean_sq: u64 = (sum / (flen as u128)) as u64;
            let rms: u64 = isqrt64(mean_sq);
            let bar: u16 = if rms <= 10000 {
                rms as u16
            } else {
                10000
            };
            proof {
                assert(audio@.subrange(st as int, end as int) =~= frame_seq(
                    audio@,
                    cs as int,
                    i as int,
                ));
                assert(bar == bar_value(frame_seq(audio@, cs as int, i as int)));
                assert(bar == g[i as int]);
            }
            bars.push(bar);
            st = end;
            i = i + 1;
            proof {
                lemma_frame_in_range(len as int, cs as int, i as int);
            }
        }

        // Pad any remaining bars with zeros.
        proof {
            if i < num_bars && (i as int) < chunks {
                lemma_frame_in_range(len as int, cs as int, i as int);
            }
        }
        while i < num_bars
            invariant
                i <= num_bars,
                bars@.len() == i,
                i < num_bars ==> i as int >= chunks,
                forall|k: int| 0 <= k < i ==> bars@[k] == g[k],
            decreases num_bars - i,
        {
            bars.push(0);
            proof {
                assert(bars@[i as int] == g[i as int]);
            }
            i = i + 1;
        }

        let r = WaveformData { bars };
        proof {
            assert(r.bars@ =~= g);
        }
        r
    }

    /// Number of bars.
    pub fn len(&self) -> (r: usize)
        ensures
            r == self.bars@.len(),
    {
        self.bars.len()
    }

    /// Returns `true` when there are no bars.
    pub fn is_empty(&self) -> (r: bool)
        ensures
            r == (self.bars@.len() == 0),
    {
        self.bars.is_empty()
    }

    /// The largest bar value (0 when there are no bars).
    pub open spec fn spec_peak(s: Seq<u16>) -> u16
        decreases s.len(),
    {
        if s.len() == 0 {
            0u16
        } else {
            let rest = Self::spec_peak(s.drop_last());
            if s.last() > rest {
                s.last()
            } else {
                rest
            }
        }
    }

    /// Peak bar value across the waveform (useful for normalisation).
    #[verifier::loop_isolation(false)]
    pub fn peak(&self) -> (r: u16)
        ensures
            r == Self::spec_peak(self.bars@),
    {
        let mut mx: u16 = 0;
        let mut i: usize = 0;
        let n = self.bars.len();
        while i < n
            invariant
                i <= n,
                n == self.bars@.len(),
                mx == Self::spec_peak(self.bars@.take(i as int)),
            decreases n - i,
        {
            if self.bars[i] > mx {
                mx = self.bars[i];
            }
            proof {
                assert(self.bars@.take(i + 1 as int).drop_last() =~= self.bars@.take(i as int));
            }
            i = i + 1;
        }
        proof {
            assert(self.bars@.take(n as int) =~= self.bars@);
        }
        mx
    }
}

} // verus!
