//! Energy-based voice-activity detection (VAD).
//!
//! [`VadDetector`] trims leading and trailing silence from a 16 kHz mono
//! clip before it is sent to the STT engine.  The clip is split into
//! fixed-size frames (default 480 samples, 30 ms at 16 kHz); a frame counts
//! as voice when its root-mean-square amplitude exceeds the configured
//! threshold, which over fixed-point integer samples is the exact comparison
//! `sum of squares > threshold^2 * frame length`.  The result is the
//! sub-slice from the first through the last voice frame; an all-silent clip
//! yields an empty slice.

use vstd::prelude::*;

verus! {

/// The sum of squared amplitudes of a frame.
pub open spec fn sum_squares(s: Seq<i16>) -> int
    decreases s.len(),
{
    if s.len() == 0 {
        0
    } else {
        sum_squares(s.drop_last()) + (s.last() as int) * (s.last() as int)
    }
}

/// Whether a frame carries voice: it is non-empty and its RMS amplitude
/// exceeds `thr`, stated without square roots as
/// `sum of squares > thr^2 * len`.
pub open spec fn frame_has_voice(f: Seq<i16>, thr: int) -> bool {
    f.len() > 0 && sum_squares(f) > thr * thr * f.len()
}

/// Number of frames of size `fs` covering `len` samples (last may be short).
pub open spec fn frame_count(len: int, fs: int) -> int {
    (len + fs - 1) / fs
}

/// The `i`-th frame of `s` under frame size `fs`.
pub open spec fn frame_seq(s: Seq<i16>, fs: int, i: int) -> Seq<i16> {
    s.subrange(
        i * fs,
        if (i + 1) * fs <= s.len() {
            (i + 1) * fs
        } else {
            s.len() as int
        },
    )
}

/// Whether frame `i` of `s` carries voice.
pub open spec fn voice_frame(s: Seq<i16>, fs: int, thr: int, i: int) -> bool {
    frame_has_voice(frame_seq(s, fs, i), thr)
}

/// Index of the first voice frame at or after `i`, or the frame count when
/// there is none.
pub open spec fn first_voice_from(s: Seq<i16>, fs: int, thr: int, i: int) -> int
    decreases frame_count(s.len() as int, fs) - i
        when 0 <= i <= frame_count(s.len() as int, fs) && fs >= 1
{
    if i >= frame_count(s.len() as int, fs) {
        frame_count(s.len() as int, fs)
    } else if voice_frame(s, fs, thr, i) {
        i
    } else {
        first_voice_from(s, fs, thr, i + 1)
    }
}

/// Index of the last voice frame strictly before `j`, or -1 when there is
/// none.
pub open spec fn last_voice_before(s: Seq<i16>, fs: int, thr: int, j: int) -> int
    decreases j when j >= 0
{
    if j <= 0 {
        -1
    } else if voice_frame(s, fs, thr, j - 1) {
        j - 1
    } else {
        last_voice_before(s, fs, thr, j - 1)
    }
}

/// The samples from the start of the first voice frame through the end of
/// the last voice frame, or the empty sequence when no frame carries voice.
pub open spec fn spec_trim_silence(s: Seq<i16>, fs: int, thr: int) -> Seq<i16> {
    let n = frame_count(s.len() as int, fs);
    let a = first_voice_from(s, fs, thr, 0);
    if a == n {
        Seq::empty()
    } else {
        let b = last_voice_before(s, fs, thr, n);
        s.subrange(
            a * fs,
            if (b + 1) * fs <= s.len() {
                (b + 1) * fs
            } else {
                s.len() as int
            },
        )
    }
}

/// Energy-based silence trimmer.
pub struct VadDetector {
    /// RMS amplitude threshold in fixed-point units; frames at or below it
    /// are considered silence.  A typical quiet-room value is 100 (0.01 of
    /// full scale).
    rms_threshold: u16,
    /// Frame size in samples.  Default: 480 samples, 30 ms at 16 kHz.
    frame_size: usize,
}

/// A frame index is within the frame count exactly when its start lies
/// within the clip.
pub proof fn lemma_frame_in_range(len: int, fs: int, j: int)
    requires
        fs >= 1,
        j >= 0,
        len >= 0,
    ensures
        (j < frame_count(len, fs)) == (j * fs < len),
{
    assert((j < (len + fs - 1) / fs) == (j * fs < len)) by (nonlinear_arith)
        requires
            fs >= 1,
            j >= 0,
            len >= 0,
    ;
}

/// Whether the samples `start..end` of `audio` form a voice frame.
#[verifier::loop_isolation(false)]
fn voice_in_range(audio: &[i16], start: usize, end: usize, thr: u16) -> (r: bool)
    requires
        start <= end <= audio@.len(),
    ensures
        r == frame_has_voice(audio@.subrange(start as int, end as int), thr as int),
{
    if start == end {
        return false;
    }
    let mut sum: u128 = 0;
    let mut k: usize = start;
    while k < end
        invariant
            start <= k <= end,
            sum == sum_squares(audio@.subrange(start as int, k as int)),
            sum <= (k - start) as int * 0x40000000,
        decreases end - k,
    {
        let v: i64 = audio[k] as i64;
        proof {
            assert(0 <= v * v <= 0x40000000) by (nonlinear_arith)
                requires
                    -0x8000 <= v <= 0x7FFF,
            ;
            assert(sum + (v * v) as u128 <= (k + 1 - start) as int * 0x40000000);
            assert((k + 1 - start) as int * 0x40000000 < 0xFFFFFFFFFFFFFFFFFFFFFFFFu128)
                by (nonlinear_arith)
                requires
                    k + 1 - start <= 0xFFFFFFFFFFFFFFFFu128,
            ;
        }
        let sq: i64 = v * v;
        sum = sum + (sq as u128);
        proof {
            assert(audio@.subrange(start as int, k + 1 as int).drop_last() =~= audio@.subrange(
                start as int,
                k as int,
            ));
        }
        k = k + 1;
    }
    let flen: usize = end - start;
    proof {
        assert((thr as u64) * (thr as u64) <= 0xFFFE0001u64) by (nonlinear_arith)
            requires
                thr as u64 <= 0xFFFFu64,
        ;
    }
    let t2: u64 = (thr as u64) * (thr as u64);
    proof {
        assert((t2 as u128) * (flen as u128) <= 0xFFFE0001u128 * 0xFFFFFFFFFFFFFFFFu128)
            by (nonlinear_arith)
            requires
                t2 as u128 <= 0xFFFE0001u128,
                flen as u128 <= 0xFFFFFFFFFFFFFFFFu128,
        ;
        assert((t2 as u128) * (flen as u128) == (thr as int) * (thr as int) * (flen as int))
            by (nonlinear_arith)
            requires
                t2 == (thr as int) * (thr as int),
                t2 as u128 * (flen as u128) <= 0xFFFE0001u128 * 0xFFFFFFFFFFFFFFFFu128,
        ;
    }
    sum > (t2 as u128) * (flen as u128)
}

impl VadDetector {
    /// The configured RMS threshold, as a spec value.
    pub closed spec fn spec_threshold(&self) -> u16 {
        self.rms_threshold
    }

    /// The configured frame size, as a spec value.
    pub closed spec fn spec_frame_size(&self) -> usize {
        self.frame_size
    }

    /// Create a detector with the given RMS threshold and the default frame
    /// size of 480 samples (30 ms at 16 kHz).
    pub fn new(rms_threshold: u16) -> (r: Self)
        ensures
            r.spec_threshold() == rms_threshold,
            r.spec_frame_size() == 480,
    {
        Self { rms_threshold, frame_size: 480 }
    }

    /// Create a detector with a custom frame size, for sample rates other
    /// than 16 kHz.  A frame size of zero is a programming error and is
    /// excluded by contract.
    pub fn with_frame_size(rms_threshold: u16, frame_size: usize) -> (r: Self)
        requires
            frame_size > 0,
        ensures
            r.spec_threshold() == rms_threshold,
            r.spec_frame_size() == frame_size,
    {
        Self { rms_threshold, frame_size }
    }

    /// RMS threshold currently in use.
    pub fn threshold(&self) -> (r: u16)
        ensures
            r == self.spec_threshold(),
    {
        self.rms_threshold
    }

    /// Trim leading and trailing silence from `audio`.
    ///
    /// Returns a sub-slice of the original buffer, no allocation: the
    /// samples from the first through the last voice frame.  If the entire
    /// signal is silent, a zero-length slice is returned.
    #[verifier::loop_isolation(false)]
    pub fn trim_silence<'a>(&self, audio: &'a [i16]) -> (r: &'a [i16])
        requires
            self.spec_frame_size() > 0,
        ensures
            r@ == spec_trim_silence(
                audio@,
                self.spec_frame_size() as int,
                self.spec_threshold() as int,
            ),
    {
        let len: usize = audio.len();
        let fs: usize = self.frame_size;
        let thr: u16 = self.rms_threshold;
        let ghost n = frame_count(len as int, fs as int);
        proof {
            lemma_frame_in_range(len as int, fs as int, 0);
            lemma_frame_in_range(len as int, fs as int, n);
            if n < 0 {
                lemma_frame_in_range(len as int, fs as int, 0);
                assert((0 + fs - 1) / (fs as int) >= 0) by (nonlinear_arith)
                    requires
                        fs >= 1,
                ;
                assert((len + fs - 1) / (fs as int) >= (0 + fs - 1) / (fs as int))
                    by (nonlinear_arith)
                    requires
                        fs >= 1,
                        len >= 0,
                ;
            }
            assert(n >= 0);
        }
        if len == 0 {
            proof {
                assert(!(0 * (fs as int) < 0));
                assert(n <= 0);
            }
            return audio;
        }
        proof {
            assert(0 * (fs as int) < len);
            assert(n >= 1);
        }

        let mut found: bool = false;
        let mut voice_start: usize = 0;
        let mut voice_end: usize = 0;
        let mut st: usize = 0;
        let ghost mut i: int = 0;
        while st < len
            invariant
                0 <= i <= n,
                i < n ==> st == i * fs,
                i == n ==> st == len,
                st <= len,
                !found ==> first_voice_from(audio@, fs as int, thr as int, 0)
                    == first_voice_from(audio@, fs as int, thr as int, i),
                !found ==> last_voice_before(audio@, fs as int, thr as int, i) == -1,
                found ==> {
                    let a = first_voice_from(audio@, fs as int, thr as int, 0);
                    let b = last_voice_before(audio@, fs as int, thr as int, i);
                    &&& 0 <= a <= b < i
                    &&& voice_start == a * fs
                    &&& voice_end == (if (b + 1) * fs <= len {
                        (b + 1) * fs
                    } else {
                        len as int
                    })
                    &&& voice_start < voice_end <= len
                },
            decreases len - st,
        {
            proof {
                assert(i < n);
            }
            let end: usize = if fs < len - st {
                st + fs
            } else {
                len
            };
            proof {
                assert((i + 1) * (fs as int) == st + fs) by (nonlinear_arith)
                    requires
                        st == i * fs,
                ;
            }
            let is_voice = voice_in_range(audio, st, end, thr);
            proof {
                assert(audio@.subrange(st as int, end as int) =~= frame_seq(
                    audio@,
                    fs as int,
                    i,
                ));
                assert(is_voice == voice_frame(audio@, fs as int, thr as int, i));
            }
            if is_voice {
                if !found {
                    found = true;
                    voice_start = st;
                }
                voice_end = end;
            }
            proof {
                reveal_with_fuel(first_voice_from, 2);
                reveal_with_fuel(last_voice_before, 2);
                if is_voice {
                    assert(first_voice_from(audio@, fs as int, thr as int, i) == i);
                } else {
                    assert(first_voice_from(audio@, fs as int, thr as int, i)
                        == first_voice_from(audio@, fs as int, thr as int, i + 1));
                }
                assert(last_voice_before(audio@, fs as int, thr as int, i + 1) == (if is_voice {
                    i
                } else {
                    last_voice_before(audio@, fs as int, thr as int, i)
                }));
                i = i + 1;
                lemma_frame_in_range(len as int, fs as int, i);
            }
            st = end;
            proof {
                let a2 = first_voice_from(audio@, fs as int, thr as int, 0);
                let b2 = last_voice_before(audio@, fs as int, thr as int, i);
                if found {
                    assert(0 <= a2 <= b2 < i);
                    assert(a2 * (fs as int) < (b2 + 1) * (fs as int)) by (nonlinear_arith)
                        requires
                            a2 <= b2,
                            fs >= 1,
                    ;
                    lemma_frame_in_range(len as int, fs as int, a2);
                    assert(voice_start < voice_end <= len);
                }
            }
        }
        proof {
            if i < n {
                lemma_frame_in_range(len as int, fs as int, i);
            }
            assert(i == n);
        }
        if !found {
            proof {
                reveal_with_fuel(first_voice_from, 1);
            }
            return &audio[0..0];
        }
        &audio[voice_start..voice_end]
    }
}

} // verus!
