//! Pre-transcription audio quality validation.
//!
//! [`AudioQuality`] checks a 16 kHz mono clip against three ordered criteria
//! before it is passed to the STT engine: duration bounds, a silence floor,
//! and a clipping limit.  The first failing check decides the error.
//!
//! Samples are fixed-point: an amplitude of [`FULL_SCALE`] units stands for
//! full scale (1.0), so the default silence floor of 0.01 is 100 units and
//! the default clipping threshold of 0.99 is 9 900 units.

use vstd::prelude::*;

use crate::text::{decimal_string, spec_decimal};

verus! {

/// Fixed-point amplitude units per unit of full scale.
pub const FULL_SCALE: u16 = 10000;

/// Samples per millisecond at the 16 kHz pipeline rate.
pub const SAMPLES_PER_MS: u64 = 16;

/// Reason an audio clip failed quality validation.
#[derive(Debug, Clone, Copy, PartialEq, Eq, Structural)]
pub enum AudioError {
    /// Recording is shorter than the configured minimum.
    TooShort { min_ms: u32, got_ms: u64 },
    /// Recording is longer than the configured maximum.
    TooLong { max_ms: u32, got_ms: u64 },
    /// All samples are below the silence floor.
    TooQuiet { amplitude: u16, threshold: u16 },
    /// Too many samples are clipped (near full scale).
    Clipping { clipped_pct: u64, max_pct: u16 },
}

impl AudioError {
    /// Human-readable description, with the measured value and the threshold.
    pub fn message(&self) -> (r: String)
        ensures
            r@ == self.spec_message(),
    {
        match self {
            AudioError::TooShort { min_ms, got_ms } => {
                let mut s = String::new();
                s.append("recording too short: ");
                s.append(decimal_string(*got_ms).as_str());
                s.append("ms (minimum ");
                s.append(decimal_string(*min_ms as u64).as_str());
                s.append("ms)");
                s
            },
            AudioError::TooLong { max_ms, got_ms } => {
                let mut s = String::new();
                s.append("recording too long: ");
                s.append(decimal_string(*got_ms).as_str());
                s.append("ms (maximum ");
                s.append(decimal_string(*max_ms as u64).as_str());
                s.append("ms)");
                s
            },
            AudioError::TooQuiet { amplitude, threshold } => {
                let mut s = String::new();
                s.append("audio too quiet: max amplitude ");
                s.append(decimal_string(*amplitude as u64).as_str());
                s.append(" (threshold ");
                s.append(decimal_string(*threshold as u64).as_str());
                s.append(")");
                s
            },
            AudioError::Clipping { clipped_pct, max_pct } => {
                let mut s = String::new();
                s.append("audio clipping: ");
                s.append(decimal_string(*clipped_pct).as_str());
                s.append("% of samples clipped (max ");
                s.append(decimal_string(*max_pct as u64).as_str());
                s.append("%)");
                s
            },
        }
    }

    /// The text [`message`](Self::message) returns.
    pub open spec fn spec_message(&self) -> Seq<char> {
        match self {
            AudioError::TooShort { min_ms, got_ms } => "recording too short: "@ + spec_decimal(
                *got_ms as nat,
            ) + "ms (minimum "@ + spec_decimal(*min_ms as nat) + "ms)"@,
            AudioError::TooLong { max_ms, got_ms } => "recording too long: "@ + spec_decimal(
                *got_ms as nat,
            ) + "ms (maximum "@ + spec_decimal(*max_ms as nat) + "ms)"@,
            AudioError::TooQuiet { amplitude, threshold } => "audio too quiet: max amplitude "@
                + spec_decimal(*amplitude as nat) + " (threshold "@ + spec_decimal(
                *threshold as nat,
            ) + ")"@,
            AudioError::Clipping { clipped_pct, max_pct } => "audio clipping: "@ + spec_decimal(
                *clipped_pct as nat,
            ) + "% of samples clipped (max "@ + spec_decimal(*max_pct as nat) + "%)"@,
        }
    }
}

/// The absolute amplitude of one sample.
pub open spec fn abs_amp(x: i16) -> int {
    if x < 0 {
        -(x as int)
    } else {
        x as int
    }
}

/// The peak absolute amplitude of a clip (0 for an empty clip).
pub open spec fn peak_amplitude(s: Seq<i16>) -> int
    decreases s.len(),
{
    if s.len() == 0 {
        0
    } else {
        let rest = peak_amplitude(s.drop_last());
        if abs_amp(s.last()) > rest {
            abs_amp(s.last())
        } else {
            rest
        }
    }
}

/// How many samples exceed the clipping threshold `thr` in absolute value.
pub open spec fn clipped_count(s: Seq<i16>, thr: int) -> nat
    decreases s.len(),
{
    if s.len() == 0 {
        0
    } else {
        clipped_count(s.drop_last(), thr) + (if abs_amp(s.last()) > thr {
            1nat
        } else {
            0nat
        })
    }
}

/// Validates an audio clip before STT transcription.
///
/// All thresholds can be adjusted; [`Default`] matches the recommended
/// values: 0.5 s to 60 s, silence floor 0.01 of full scale, clipping above
/// 0.99 of full scale, and at most 10 % clipped samples.
pub struct AudioQuality {
    /// Minimum allowed duration in milliseconds (default 500).
    pub min_recording_ms: u32,
    /// Maximum allowed duration in milliseconds (default 60 000).
    pub max_recording_ms: u32,
    /// Minimum peak amplitude, in fixed-point units, for the clip to be
    /// considered non-silent (default 100, i.e. 0.01 of full scale).
    pub silence_threshold: u16,
    /// Amplitude above which a sample counts as clipped (default 9 900,
    /// i.e. 0.99 of full scale).
    pub clipping_threshold: u16,
    /// Maximum percentage of clipped samples before the clip is rejected
    /// (default 10).
    pub clipping_max_pct: u16,
}

impl Default for AudioQuality {
    /// The recommended default thresholds.
    fn default() -> (r: Self)
        ensures
            r.min_recording_ms == 500,
            r.max_recording_ms == 60000,
            r.silence_threshold == 100,
            r.clipping_threshold == 9900,
            r.clipping_max_pct == 10,
    {
        Self {
            min_recording_ms: 500,
            max_recording_ms: 60000,
            silence_threshold: 100,
            clipping_threshold: 9900,
            clipping_max_pct: 10,
        }
    }
}

impl AudioQuality {
    /// Create a validator with the given duration limits (in milliseconds)
    /// and default thresholds.
    pub fn new(min_ms: u32, max_ms: u32) -> (r: Self)
        ensures
            r.min_recording_ms == min_ms,
            r.max_recording_ms == max_ms,
            r.silence_threshold == 100,
            r.clipping_threshold == 9900,
            r.clipping_max_pct == 10,
    {
        Self { min_recording_ms: min_ms, max_recording_ms: max_ms, ..Default::default() }
    }

    /// The validation outcome: the first failure in the order duration
    /// (too short, then too long), silence, clipping.
    ///
    /// A clip passes the clipping check exactly when
    /// `clipped * 100 <= len * clipping_max_pct`, so a clipped fraction
    /// exactly at the maximum is accepted.
    pub open spec fn spec_validate(&self, audio: Seq<i16>) -> Result<(), AudioError> {
        if (audio.len() as int) < (self.min_recording_ms as int) * 16 {
            Err(
                AudioError::TooShort {
                    min_ms: self.min_recording_ms,
                    got_ms: (audio.len() as u64) / 16,
                },
            )
        } else if (audio.len() as int) > (self.max_recording_ms as int) * 16 {
            Err(
                AudioError::TooLong {
                    max_ms: self.max_recording_ms,
                    got_ms: (audio.len() as u64) / 16,
                },
            )
        } else if peak_amplitude(audio) < self.silence_threshold {
            Err(
                AudioError::TooQuiet {
                    amplitude: peak_amplitude(audio) as u16,
                    threshold: self.silence_threshold,
                },
            )
        } else if audio.len() > 0 && clipped_count(audio, self.clipping_threshold as int) * 100
            > audio.len() * (self.clipping_max_pct as nat) {
            Err(
                AudioError::Clipping {
                    clipped_pct: (clipped_count(audio, self.clipping_threshold as int) * 100
                        / audio.len()) as u64,
                    max_pct: self.clipping_max_pct,
                },
            )
        } else {
            Ok(())
        }
    }

    /// Validate a 16 kHz mono clip.
    ///
    /// Returns `Ok(())` when all checks pass, or the first failure in this
    /// order: duration (too short, then too long), silence, clipping.
    #[verifier::loop_isolation(false)]
    pub fn validate(&self, audio: &[i16]) -> (r: Result<(), AudioError>)
        ensures
            r == self.spec_validate(audio@),
    {
        let len: usize = audio.len();

        // Duration checks at 16 kHz.
        if (len as u64) < (self.min_recording_ms as u64) * SAMPLES_PER_MS {
            return Err(
                (AudioError::TooShort {
                    min_ms: self.min_recording_ms,
                    got_ms: (len as u64) / SAMPLES_PER_MS,
                }),
            );
        }
        if (len as u64) > (self.max_recording_ms as u64) * SAMPLES_PER_MS {
            return Err(
                (AudioError::TooLong {
                    max_ms: self.max_recording_ms,
                    got_ms: (len as u64) / SAMPLES_PER_MS,
                }),
            );
        }

        // Silence check: peak absolute amplitude must reach the floor.
        let mut peak: u16 = 0;
        let mut i: usize = 0;
        while i < len
            invariant
                i <= len,
                peak == peak_amplitude(audio@.take(i as int)),
            decreases len - i,
        {
            let v: i32 = audio[i] as i32;
            let a: i32 = if v < 0 {
                -v
            } else {
                v
            };
            if a > peak as i32 {
                proof {
                    assert(a <= 32768);
                }
                peak = a as u16;
            }
            proof {
                assert(audio@.take(i + 1 as int).drop_last() =~= audio@.take(i as int));
            }
            i = i + 1;
        }
        proof {
            assert(audio@.take(len as int) =~= audio@);
        }
        if peak < self.silence_threshold {
            return Err(
                AudioError::TooQuiet { amplitude: peak, threshold: self.silence_threshold },
            );
        }

        // Clipping check: the fraction of near-full-scale samples may not
        // exceed the configured percentage.
        if len > 0 {
            let mut clipped: usize = 0;
            let mut j: usize = 0;
            while j < len
                invariant
                    j <= len,
                    clipped <= j,
                    clipped == clipped_count(audio@.take(j as int), self.clipping_threshold as int),
                decreases len - j,
            {
                let v: i32 = audio[j] as i32;
                let a: i32 = if v < 0 {
                    -v
                } else {
                    v
                };
                if a > self.clipping_threshold as i32 {
                    clipped = clipped + 1;
                }
                proof {
                    assert(audio@.take(j + 1 as int).drop_last() =~= audio@.take(j as int));
                }
                j = j + 1;
            }
            proof {
                assert(audio@.take(len as int) =~= audio@);
            }
            proof {
                assert((len as u128) * (self.clipping_max_pct as u128) <= 0xFFFFFFFFFFFFFFFF0000u128)
                    by (nonlinear_arith)
                    requires
                        len as u128 <= 0xFFFFFFFFFFFFFFFFu128,
                        self.clipping_max_pct as u128 <= 0xFFFFu128,
                ;
            }
            if (clipped as u128) * 100 > (len as u128) * (self.clipping_max_pct as u128) {
                let pct: u64 = (((clipped as u128) * 100 / (len as u128)) as u64);
                return Err(
                    AudioError::Clipping { clipped_pct: pct, max_pct: self.clipping_max_pct },
                );
            }
        }

        Ok(())
    }
}

} // verus!
