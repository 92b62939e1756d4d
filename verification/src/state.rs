//! Pipeline state machine phases and the application read model.
//!
//! [`PipelineState`] is the orchestrator's phase; [`AppState`] is the single
//! read model an observer layer consumes: current phase, last injected text,
//! raw (pre-correction) text, waveform snapshot, error message, recording
//! duration and the configuration snapshot.

use vstd::prelude::*;

use crate::config::AppConfig;

verus! {

/// Phases of the voice-to-text pipeline.
///
/// Per recording cycle the phases run `Idle` to `Recording` to
/// `Transcribing`, then optionally `Correcting`, then `Result`; any stage
/// may fall to `Error`.  `Result` and `Error` return to `Recording` on the
/// next press.
#[derive(Debug, Clone, Copy, PartialEq, Eq, Structural)]
pub enum PipelineState {
    /// Waiting for the user to press the push-to-talk hotkey.
    Idle,
    /// The microphone is active; audio is accumulating in the ring buffer.
    Recording,
    /// Audio has been drained; the STT engine is running.
    Transcribing,
    /// STT is complete; the LLM corrector is running.
    Correcting,
    /// The final text is ready.
    Result,
    /// A recoverable error occurred; the next press starts a new cycle.
    Error,
}

impl PipelineState {
    /// Whether the pipeline is actively processing audio or text.
    pub open spec fn spec_is_busy(&self) -> bool {
        match self {
            PipelineState::Recording => true,
            PipelineState::Transcribing => true,
            PipelineState::Correcting => true,
            _ => false,
        }
    }

    /// Returns `true` while the pipeline is actively processing audio or
    /// text; an observer can use this to refuse a new press while busy.
    pub fn is_busy(&self) -> (r: bool)
        ensures
            r == self.spec_is_busy(),
    {
        match self {
            PipelineState::Recording => true,
            PipelineState::Transcribing => true,
            PipelineState::Correcting => true,
            _ => false,
        }
    }

    /// A short human-readable label for a status display.
    pub fn label(&self) -> (r: &'static str)
        ensures
            r@ == self.spec_label(),
    {
        match self {
            PipelineState::Idle => "Idle",
            PipelineState::Recording => "Recording",
            PipelineState::Transcribing => "Transcribing",
            PipelineState::Correcting => "Correcting",
            PipelineState::Result => "Done",
            PipelineState::Error => "Error",
        }
    }

    /// The text [`label`](Self::label) returns.
    pub open spec fn spec_label(&self) -> Seq<char> {
        match self {
            PipelineState::Idle => "Idle"@,
            PipelineState::Recording => "Recording"@,
            PipelineState::Transcribing => "Transcribing"@,
            PipelineState::Correcting => "Correcting"@,
            PipelineState::Result => "Done"@,
            PipelineState::Error => "Error"@,
        }
    }
}

impl Default for PipelineState {
    fn default() -> (r: Self)
        ensures
            r == PipelineState::Idle,
    {
        PipelineState::Idle
    }
}

/// The application read model: everything an observer needs.
///
/// The orchestrator is the only writer; observers read a snapshot.
#[derive(Debug, Clone)]
pub struct AppState {
    /// Current phase of the voice-to-text pipeline.
    pub pipeline: PipelineState,
    /// The most-recently injected (or corrected) text, `None` until at
    /// least one transcription has completed.
    pub last_text: Option<String>,
    /// Raw STT output shown while LLM correction is running; `None` in
    /// fast mode or before STT completes.
    pub raw_text: Option<String>,
    /// Waveform amplitude snapshot for a live visualisation, in fixed-point
    /// units of full scale.
    pub waveform: Vec<u16>,
    /// Current application configuration.
    pub config: AppConfig,
    /// Error message to display when the pipeline is in the error phase.
    pub error_message: Option<String>,
    /// Duration of the current recording in milliseconds.
    pub recording_ms: u64,
}

impl AppState {
    /// A fresh idle state carrying `config`.
    pub fn new(config: AppConfig) -> (r: Self)
        ensures
            r.pipeline == PipelineState::Idle,
            r.last_text is None,
            r.raw_text is None,
            r.waveform@ == Seq::<u16>::empty(),
            r.config == config,
            r.error_message is None,
            r.recording_ms == 0,
    {
        AppState {
            pipeline: PipelineState::Idle,
            last_text: None,
            raw_text: None,
            waveform: Vec::new(),
            config,
            error_message: None,
            recording_ms: 0,
        }
    }
}

} // verus!
