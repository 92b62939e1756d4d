//! The speech-to-text capability: the engine interface, its error taxonomy,
//! transcription result types, and a deterministic stub engine for driving
//! the pipeline in tests.
//!
//! A production engine wraps an inference backend outside the library; the
//! orchestrator only relies on the [`SttEngine`] contract.

use vstd::prelude::*;

use crate::text::TextModel;

verus! {

/// The mathematical model of an audio clip: its samples in order.
/// Implementations of [`SttEngine`] written outside the library name their
/// ghost signatures through this alias.
pub type ClipModel = Seq<i16>;

/// Minimum clip length the engines accept: 0.5 s at 16 kHz.
pub const MIN_AUDIO_SAMPLES: usize = 8000;

/// Maximum clip length the engines accept: 60 s at 16 kHz.
pub const MAX_AUDIO_SAMPLES: usize = 960000;

/// All errors that can arise from the STT subsystem.
#[derive(Debug, Clone, PartialEq)]
pub enum SttError {
    /// The model file was not found at the given path.
    ModelNotFound(String),
    /// The inference backend failed to initialise.
    ContextInit(String),
    /// An error occurred during the inference pass.
    Transcription(String),
    /// The supplied clip is shorter than the minimum 0.5 s.
    AudioTooShort,
    /// The supplied clip exceeds the maximum 60 s.
    AudioTooLong,
}

impl SttError {
    /// Human-readable description.
    pub fn message(&self) -> (r: String)
        ensures
            r@ == self.spec_message(),
    {
        match self {
            SttError::ModelNotFound(m) => {
                let mut s = String::new();
                s.append("Model not found: ");
                s.append(m.as_str());
                s
            },
            SttError::ContextInit(m) => {
                let mut s = String::new();
                s.append("Whisper context initialisation failed: ");
                s.append(m.as_str());
                s
            },
            SttError::Transcription(m) => {
                let mut s = String::new();
                s.append("Transcription error: ");
                s.append(m.as_str());
                s
            },
            SttError::AudioTooShort => {
                "Audio too short - minimum 0.5 s (8000 samples at 16 kHz)".to_owned()
            },
            SttError::AudioTooLong => {
                "Audio too long - maximum 60 s (960000 samples at 16 kHz)".to_owned()
            },
        }
    }

    /// The text [`message`](Self::message) returns.
    pub open spec fn spec_message(&self) -> Seq<char> {
        match self {
            SttError::ModelNotFound(m) => "Model not found: "@ + m@,
            SttError::ContextInit(m) => "Whisper context initialisation failed: "@ + m@,
            SttError::Transcription(m) => "Transcription error: "@ + m@,
            SttError::AudioTooShort => "Audio too short - minimum 0.5 s (8000 samples at 16 kHz)"@,
            SttError::AudioTooLong => "Audio too long - maximum 60 s (960000 samples at 16 kHz)"@,
        }
    }
}

/// The view of a transcription outcome: text by its characters, errors as
/// they are.
pub open spec fn transcription_view(r: Result<String, SttError>) -> Result<Seq<char>, SttError> {
    match r {
        Ok(s) => Ok(s@),
        Err(e) => Err(e),
    }
}

/// A speech-to-text engine for 16 kHz mono clips.
///
/// Implementations fix what one call returns through
/// [`transcribe_spec`](Self::transcribe_spec), so callers can reason about
/// the outcome per implementation.  Engines reject clips shorter than 0.5 s
/// with [`SttError::AudioTooShort`] and longer than 60 s with
/// [`SttError::AudioTooLong`].
pub trait SttEngine {
    /// What `transcribe` returns for the given clip.
    spec fn transcribe_spec(&self, audio: ClipModel) -> Result<TextModel, SttError>;

    /// Transcribe `audio` (16 kHz mono) and return the transcript text.
    fn transcribe(&self, audio: &[i16]) -> (r: Result<String, SttError>)
        ensures
            transcription_view(r) == self.transcribe_spec(audio@),
    ;
}

/// A single time-aligned text chunk of a transcription.
#[derive(Debug, Clone)]
pub struct Segment {
    /// Segment text.
    pub text: String,
    /// Segment start time in milliseconds from the start of the clip.
    pub start_ms: u64,
    /// Segment end time in milliseconds from the start of the clip.
    pub end_ms: u64,
}

/// The output of a successful transcription with timing information.
#[derive(Debug, Clone)]
pub struct TranscriptionResult {
    /// Full concatenated transcript text.
    pub text: String,
    /// Individual time-aligned segments.
    pub segments: Vec<Segment>,
    /// Wall-clock time the inference took, in milliseconds.
    pub duration_ms: u128,
}

/// A stub engine that returns a pre-configured response, after enforcing
/// the clip-length contract.  It drives the pipeline in tests without a
/// model file.
pub struct MockSttEngine {
    response: Result<String, SttError>,
}

impl MockSttEngine {
    /// The configured response.
    pub closed spec fn spec_response(&self) -> Result<Seq<char>, SttError> {
        transcription_view(self.response)
    }

    /// A stub that returns `Ok(text)` for every valid clip.
    pub fn ok(text: &str) -> (r: Self)
        ensures
            r.spec_response() == Ok::<Seq<char>, SttError>(text@),
    {
        MockSttEngine { response: Ok(text.to_owned()) }
    }

    /// A stub that returns `Err(error)` for every valid clip.
    pub fn err(error: SttError) -> (r: Self)
        ensures
            r.spec_response() == Err::<Seq<char>, SttError>(error),
    {
        MockSttEngine { response: Err(error) }
    }
}

impl SttEngine for MockSttEngine {
    /// The length guards, then the configured response.
    open spec fn transcribe_spec(&self, audio: Seq<i16>) -> Result<Seq<char>, SttError> {
        if audio.len() < MIN_AUDIO_SAMPLES {
            Err(SttError::AudioTooShort)
        } else if audio.len() > MAX_AUDIO_SAMPLES {
            Err(SttError::AudioTooLong)
        } else {
            self.spec_response()
        }
    }

    /// Enforce the clip-length contract even in the stub, so callers are
    /// tested against it; then return the configured response.
    fn transcribe(&self, audio: &[i16]) -> (r: Result<String, SttError>) {
        if audio.len() < MIN_AUDIO_SAMPLES {
            return Err(SttError::AudioTooShort);
        }
        if audio.len() > MAX_AUDIO_SAMPLES {
            return Err(SttError::AudioTooLong);
        }
        match &self.response {
            Ok(text) => Ok(text.clone()),
            Err(SttError::ModelNotFound(m)) => Err(SttError::ModelNotFound(m.clone())),
            Err(SttError::ContextInit(m)) => Err(SttError::ContextInit(m.clone())),
            Err(SttError::Transcription(m)) => Err(SttError::Transcription(m.clone())),
            Err(SttError::AudioTooShort) => Err(SttError::AudioTooShort),
            Err(SttError::AudioTooLong) => Err(SttError::AudioTooLong),
        }
    }
}

} // verus!
