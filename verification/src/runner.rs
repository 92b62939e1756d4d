//! Pipeline orchestrator: drives one press-to-release cycle from buffered
//! audio through STT, optional LLM correction and on to the final text.
//!
//! The orchestrator owns the ring buffer, the shared read model and the
//! rolling context window.  A capture layer appends samples through
//! [`PipelineOrchestrator::push_audio`]; hotkey events arrive through
//! [`PipelineOrchestrator::handle_event`], which returns the text to hand to
//! the injection layer.  Failure discipline: an empty recording or an STT
//! failure ends the cycle in the error phase; a correction failure silently
//! degrades to the raw transcript; injection runs outside and never changes
//! the outcome.

use vstd::prelude::*;

use crate::buffer::{recent, RingBuffer};
use crate::config::{AppConfig, OperatingMode};
use crate::context::{spec_build_context, ContextManager};
use crate::corrector::LlmCorrector;
use crate::hotkey::HotkeyEvent;
use crate::state::{AppState, PipelineState};
use crate::stt::SttEngine;

verus! {

/// Errors that can surface inside the pipeline itself.
#[derive(Debug, Clone, PartialEq)]
pub enum PipelineError {
    /// The audio buffer was empty when transcription was attempted.
    EmptyAudio,
    /// The STT engine failed or returned an error.
    Stt(String),
    /// Text injection failed.
    Inject(String),
    /// Internal or unexpected error.
    Internal(String),
}

impl PipelineError {
    /// Human-readable description for the observer layer.
    pub fn message(&self) -> (r: String)
        ensures
            r@ == self.spec_message(),
    {
        match self {
            PipelineError::EmptyAudio => {
                "No audio captured — hold the hotkey longer".to_owned()
            },
            PipelineError::Stt(m) => {
                let mut s = String::new();
                s.append("Transcription failed: ");
                s.append(m.as_str());
                s
            },
            PipelineError::Inject(m) => {
                let mut s = String::new();
                s.append("Text injection failed: ");
                s.append(m.as_str());
                s
            },
            PipelineError::Internal(m) => {
                let mut s = String::new();
                s.append("Internal error: ");
                s.append(m.as_str());
                s
            },
        }
    }

    /// The text [`message`](Self::message) returns.
    pub open spec fn spec_message(&self) -> Seq<char> {
        match self {
            PipelineError::EmptyAudio => "No audio captured — hold the hotkey longer"@,
            PipelineError::Stt(m) => "Transcription failed: "@ + m@,
            PipelineError::Inject(m) => "Text injection failed: "@ + m@,
            PipelineError::Internal(m) => "Internal error: "@ + m@,
        }
    }
}

/// Explicit commands an integration can send instead of hotkey events.
#[derive(Debug, Clone, Copy, PartialEq, Eq, Structural)]
pub enum PipelineCommand {
    /// Start capturing audio (as a push-to-talk press does).
    StartRecording,
    /// Stop capturing audio and run the cycle (as a release does).
    StopRecording,
    /// Abort the current operation and return to idle.
    Cancel,
}

/// Ring buffer capacity: sixty seconds of 16 kHz mono audio.
pub const BUFFER_CAPACITY: usize = 960000;

/// Drives the complete voice-to-text pipeline for one utterance at a time.
pub struct PipelineOrchestrator<S: SttEngine, L: LlmCorrector> {
    state: AppState,
    audio_buf: RingBuffer<i16>,
    stt: S,
    llm: L,
    context: ContextManager,
}

impl<S: SttEngine, L: LlmCorrector> PipelineOrchestrator<S, L> {
    /// The buffer holds its internal consistency.
    pub closed spec fn wf(&self) -> bool {
        self.audio_buf.wf()
    }

    /// The shared read model.
    pub closed spec fn spec_state(&self) -> AppState {
        self.state
    }

    /// The buffered samples, oldest first.
    pub closed spec fn spec_buffer(&self) -> Seq<i16> {
        self.audio_buf@
    }

    /// The buffer capacity.
    pub closed spec fn spec_buffer_capacity(&self) -> usize {
        self.audio_buf.spec_capacity()
    }

    /// The STT engine.
    pub closed spec fn spec_stt(&self) -> S {
        self.stt
    }

    /// The corrector.
    pub closed spec fn spec_llm(&self) -> L {
        self.llm
    }

    /// The rolling context manager.
    pub closed spec fn spec_context(&self) -> ContextManager {
        self.context
    }

    /// Create a new orchestrator: idle, with an empty sixty-second buffer
    /// and an empty context window sized from `config`.
    pub fn new(config: AppConfig, stt: S, llm: L) -> (r: Self)
        ensures
            r.wf(),
            r.spec_state() == (AppState {
                pipeline: PipelineState::Idle,
                last_text: None,
                raw_text: None,
                waveform: r.spec_state().waveform,
                config: r.spec_state().config,
                error_message: None,
                recording_ms: 0,
            }),
            r.spec_state().waveform@ == Seq::<u16>::empty(),
            r.spec_state().config == config,
            r.spec_buffer() == Seq::<i16>::empty(),
            r.spec_buffer_capacity() == BUFFER_CAPACITY,
            r.spec_context().window() == Seq::<Seq<char>>::empty(),
            r.spec_context().spec_max_sentences() == config.context.window_size,
            r.spec_context().spec_last_activity_ms() == 0,
            r.spec_context().spec_vocab() == Seq::<crate::vocabulary::VocabEntry>::empty(),
    {
        let window_size = config.context.window_size;
        let reset_secs = config.context.reset_silence_secs;
        PipelineOrchestrator {
            state: AppState::new(config),
            audio_buf: RingBuffer::new(BUFFER_CAPACITY),
            stt,
            llm,
            context: ContextManager::with_capacity(window_size, reset_secs),
        }
    }

    /// Read access to the shared state for an observer layer.
    pub fn state(&self) -> (r: &AppState)
        ensures
            r == self.spec_state(),
    {
        &self.state
    }

    /// Install a user vocabulary into the context manager.
    pub fn set_vocabulary(&mut self, vocab: crate::vocabulary::UserVocabulary)
        requires
            old(self).wf(),
        ensures
            final(self).wf(),
            final(self).spec_context().spec_vocab() == vocab@,
            final(self).spec_state() == old(self).spec_state(),
            final(self).spec_buffer() == old(self).spec_buffer(),
    {
        self.context.set_vocabulary(vocab);
    }

    /// Append captured samples to the ring buffer (the capture layer's
    /// path).  On overflow the oldest samples are overwritten.
    pub fn push_audio(&mut self, samples: &[i16])
        requires
            old(self).wf(),
        ensures
            final(self).wf(),
            final(self).spec_buffer() == recent(
                old(self).spec_buffer() + samples@,
                old(self).spec_buffer_capacity() as int,
            ),
            final(self).spec_buffer_capacity() == old(self).spec_buffer_capacity(),
            final(self).spec_state() == old(self).spec_state(),
            final(self).spec_context() == old(self).spec_context(),
    {
        self.audio_buf.push_slice(samples);
    }

    /// Abort the current cycle: clear the buffer and return to idle without
    /// further side effects.
    pub fn cancel(&mut self)
        requires
            old(self).wf(),
        ensures
            final(self).wf(),
            final(self).spec_buffer() == Seq::<i16>::empty(),
            final(self).spec_state() == (AppState {
                pipeline: PipelineState::Idle,
                ..old(self).spec_state()
            }),
            final(self).spec_context() == old(self).spec_context(),
    {
        self.audio_buf.clear();
        self.state.pipeline = PipelineState::Idle;
    }

    /// Consume one hotkey event at time `now_ms` and return the text to
    /// inject, if the cycle produced one.
    ///
    /// A press clears the buffer and enters the recording phase.  A release
    /// drains the buffer and runs the cycle: an empty recording or an STT
    /// failure ends in the error phase with a message; otherwise in fast
    /// mode the raw transcript is final, and in the other modes the
    /// corrector runs with the built context — its success pushes the
    /// corrected sentence into the window and makes it final, its failure
    /// falls back to the raw transcript, never to the error phase.  The
    /// visibility toggle is a no-op for the state machine.
    pub fn handle_event(&mut self, event: HotkeyEvent, now_ms: u64) -> (r: Option<String>)
        requires
            old(self).wf(),
        ensures
            final(self).wf(),
            final(self).spec_stt() == old(self).spec_stt(),
            final(self).spec_llm() == old(self).spec_llm(),
            final(self).spec_state().config == old(self).spec_state().config,
            event == HotkeyEvent::PushToTalkPressed ==> {
                &&& r is None
                &&& final(self).spec_buffer() == Seq::<i16>::empty()
                &&& final(self).spec_state() == (AppState {
                    pipeline: PipelineState::Recording,
                    recording_ms: 0,
                    error_message: None,
                    ..old(self).spec_state()
                })
                &&& final(self).spec_context() == old(self).spec_context()
            },
            event == HotkeyEvent::ToggleVisibility ==> {
                &&& r is None
                &&& *final(self) == *old(self)
            },
            event == HotkeyEvent::PushToTalkReleased ==> {
                let audio = old(self).spec_buffer();
                let cfg = old(self).spec_state().config;
                &&& final(self).spec_buffer() == Seq::<i16>::empty()
                &&& (if audio.len() == 0 {
                    &&& r is None
                    &&& final(self).spec_state().pipeline == PipelineState::Error
                    &&& (final(self).spec_state().error_message matches Some(m) && m@
                        == "No audio captured — hold the hotkey longer"@)
                    &&& final(self).spec_context() == old(self).spec_context()
                } else {
                    match old(self).spec_stt().transcribe_spec(audio) {
                        Err(e) => {
                            &&& r is None
                            &&& final(self).spec_state().pipeline == PipelineState::Error
                            &&& (final(self).spec_state().error_message matches Some(m) && m@
                                == "Transcription failed: "@ + e.spec_message())
                            &&& final(self).spec_context() == old(self).spec_context()
                        },
                        Ok(raw) => {
                            &&& final(self).spec_state().pipeline == PipelineState::Result
                            &&& final(self).spec_state().raw_text is None
                            &&& final(self).spec_state().recording_ms == audio.len() as int / 16
                            &&& (if cfg.operating_mode == OperatingMode::Fast {
                                &&& (r matches Some(t) && t@ == raw)
                                &&& (final(self).spec_state().last_text matches Some(t) && t@
                                    == raw)
                                &&& final(self).spec_context() == old(self).spec_context()
                            } else {
                                let ctx = spec_build_context(
                                    old(self).spec_context().window(),
                                    old(self).spec_context().spec_vocab(),
                                );
                                match old(self).spec_llm().correct_spec(raw, ctx) {
                                    Ok(corrected) => {
                                        &&& (r matches Some(t) && t@ == corrected)
                                        &&& (final(self).spec_state().last_text matches Some(t)
                                            && t@ == corrected)
                                        &&& final(self).spec_context().window() == recent(
                                            (if now_ms > old(self).spec_context()
                                                .spec_last_activity_ms() + old(
                                                self,
                                            ).spec_context().spec_silence_reset_ms() {
                                                Seq::<Seq<char>>::empty()
                                            } else {
                                                old(self).spec_context().window()
                                            }).push(corrected),
                                            old(self).spec_context().spec_max_sentences() as int,
                                        )
                                    },
                                    Err(_) => {
                                        &&& (r matches Some(t) && t@ == raw)
                                        &&& (final(self).spec_state().last_text matches Some(t)
                                            && t@ == raw)
                                        &&& final(self).spec_context() == old(self).spec_context()
                                    },
                                }
                            })
                        },
                    }
                })
            },
    {
        match event {
            HotkeyEvent::PushToTalkPressed => {
                self.handle_pressed();
                None
            },
            HotkeyEvent::PushToTalkReleased => self.handle_released(now_ms),
            HotkeyEvent::ToggleVisibility => {
                // Visibility is a presentation concern; the state machine
                // ignores it.
                None
            },
        }
    }

    /// Consume one explicit command at time `now_ms`: starting and stopping
    /// act exactly as the corresponding hotkey events do, and cancel clears
    /// the buffer and forces the idle phase.
    pub fn handle_command(&mut self, command: PipelineCommand, now_ms: u64) -> (r: Option<String>)
        requires
            old(self).wf(),
        ensures
            final(self).wf(),
            command == PipelineCommand::Cancel ==> {
                &&& r is None
                &&& final(self).spec_buffer() == Seq::<i16>::empty()
                &&& final(self).spec_state() == (AppState {
                    pipeline: PipelineState::Idle,
                    ..old(self).spec_state()
                })
                &&& final(self).spec_context() == old(self).spec_context()
            },
    {
        match command {
            PipelineCommand::StartRecording => self.handle_event(
                HotkeyEvent::PushToTalkPressed,
                now_ms,
            ),
            PipelineCommand::StopRecording => self.handle_event(
                HotkeyEvent::PushToTalkReleased,
                now_ms,
            ),
            PipelineCommand::Cancel => {
                self.cancel();
                None
            },
        }
    }

    /// Publish a waveform snapshot for observers (the capture layer computes
    /// it from the samples it delivers).
    pub fn set_waveform(&mut self, bars: Vec<u16>)
        requires
            old(self).wf(),
        ensures
            final(self).wf(),
            final(self).spec_state() == (AppState { waveform: bars, ..old(self).spec_state() }),
            final(self).spec_buffer() == old(self).spec_buffer(),
            final(self).spec_context() == old(self).spec_context(),
    {
        self.state.waveform = bars;
    }

    /// Push-to-talk press: clear leftover audio and enter the recording
    /// phase with a fresh timer and no stale error.
    fn handle_pressed(&mut self)
        requires
            old(self).wf(),
        ensures
            final(self).wf(),
            final(self).spec_buffer() == Seq::<i16>::empty(),
            final(self).spec_state() == (AppState {
                pipeline: PipelineState::Recording,
                recording_ms: 0,
                error_message: None,
                ..old(self).spec_state()
            }),
            final(self).spec_context() == old(self).spec_context(),
            final(self).spec_stt() == old(self).spec_stt(),
            final(self).spec_llm() == old(self).spec_llm(),
    {
        self.audio_buf.clear();
        self.state.pipeline = PipelineState::Recording;
        self.state.recording_ms = 0;
        self.state.error_message = None;
    }

    /// Push-to-talk release: drain the buffer and run the cycle through
    /// STT, optional correction, and on to the final text.
    fn handle_released(&mut self, now_ms: u64) -> (r: Option<String>)
        requires
            old(self).wf(),
        ensures
            final(self).wf(),
            final(self).spec_stt() == old(self).spec_stt(),
            final(self).spec_llm() == old(self).spec_llm(),
            final(self).spec_state().config == old(self).spec_state().config,
            final(self).spec_buffer() == Seq::<i16>::empty(),
            ({
                let audio = old(self).spec_buffer();
                let cfg = old(self).spec_state().config;
                if audio.len() == 0 {
                    &&& r is None
                    &&& final(self).spec_state().pipeline == PipelineState::Error
                    &&& (final(self).spec_state().error_message matches Some(m) && m@
                        == "No audio captured — hold the hotkey longer"@)
                    &&& final(self).spec_context() == old(self).spec_context()
                } else {
                    match old(self).spec_stt().transcribe_spec(audio) {
                        Err(e) => {
                            &&& r is None
                            &&& final(self).spec_state().pipeline == PipelineState::Error
                            &&& (final(self).spec_state().error_message matches Some(m) && m@
                                == "Transcription failed: "@ + e.spec_message())
                            &&& final(self).spec_context() == old(self).spec_context()
                        },
                        Ok(raw) => {
                            &&& final(self).spec_state().pipeline == PipelineState::Result
                            &&& final(self).spec_state().raw_text is None
                            &&& final(self).spec_state().recording_ms == audio.len() as int / 16
                            &&& (if cfg.operating_mode == OperatingMode::Fast {
                                &&& (r matches Some(t) && t@ == raw)
                                &&& (final(self).spec_state().last_text matches Some(t) && t@
                                    == raw)
                                &&& final(self).spec_context() == old(self).spec_context()
                            } else {
                                let ctx = spec_build_context(
                                    old(self).spec_context().window(),
                                    old(self).spec_context().spec_vocab(),
                                );
                                match old(self).spec_llm().correct_spec(raw, ctx) {
                                    Ok(corrected) => {
                                        &&& (r matches Some(t) && t@ == corrected)
                                        &&& (final(self).spec_state().last_text matches Some(t)
                                            && t@ == corrected)
                                        &&& final(self).spec_context().window() == recent(
                                            (if now_ms > old(self).spec_context()
                                                .spec_last_activity_ms() + old(
                                                self,
                                            ).spec_context().spec_silence_reset_ms() {
                                                Seq::<Seq<char>>::empty()
                                            } else {
                                                old(self).spec_context().window()
                                            }).push(corrected),
                                            old(self).spec_context().spec_max_sentences() as int,
                                        )
                                    },
                                    Err(_) => {
                                        &&& (r matches Some(t) && t@ == raw)
                                        &&& (final(self).spec_state().last_text matches Some(t)
                                            && t@ == raw)
                                        &&& final(self).spec_context() == old(self).spec_context()
                                    },
                                }
                            })
                        },
                    }
                }
            }),
    {
        // Drain the accumulated recording.
        let audio = self.audio_buf.drain();

        if audio.is_empty() {
            self.set_error(PipelineError::EmptyAudio.message());
            return None;
        }

        self.state.recording_ms = (audio.len() / 16) as u64;

        // STT transcription.
        self.state.pipeline = PipelineState::Transcribing;
        let stt_result = self.stt.transcribe(audio.as_slice());

        let raw_text = match stt_result {
            Ok(text) => text,
            Err(e) => {
                self.set_error(PipelineError::Stt(e.message()).message());
                return None;
            },
        };

        // Publish the raw transcript for observers while correction runs.
        self.state.raw_text = Some(raw_text.clone());

        // Mode branch: fast mode skips correction entirely; the other modes
        // run the corrector and degrade to the raw text on failure.
        let final_text = if self.state.config.operating_mode == OperatingMode::Fast {
            raw_text
        } else {
            self.state.pipeline = PipelineState::Correcting;
            let context = self.context.build_context();
            let context_ref: Option<&str> = match &context {
                Some(c) => Some(c.as_str()),
                None => None,
            };
            match self.llm.correct(raw_text.as_str(), context_ref) {
                Ok(corrected) => {
                    // Grow the rolling context with the corrected sentence.
                    self.context.push_sentence_at(corrected.clone(), now_ms);
                    corrected
                },
                Err(_) => raw_text,
            }
        };

        // Finalise: the cycle reaches the result phase whatever injection
        // does later.
        self.state.pipeline = PipelineState::Result;
        self.state.last_text = Some(final_text.clone());
        self.state.raw_text = None;
        Some(final_text)
    }

    /// Record a cycle-fatal failure.
    fn set_error(&mut self, message: String)
        requires
            old(self).wf(),
        ensures
            final(self).wf(),
            final(self).spec_state() == (AppState {
                pipeline: PipelineState::Error,
                error_message: Some(message),
                ..old(self).spec_state()
            }),
            final(self).spec_buffer() == old(self).spec_buffer(),
            final(self).spec_context() == old(self).spec_context(),
            final(self).spec_stt() == old(self).spec_stt(),
            final(self).spec_llm() == old(self).spec_llm(),
    {
        self.state.pipeline = PipelineState::Error;
        self.state.error_message = Some(message);
    }
}

} // verus!
