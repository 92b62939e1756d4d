//! Core library for a push-to-talk voice-dictation pipeline: a fixed-capacity
//! ring buffer accumulates microphone samples, a quality gate and an
//! energy-based silence trimmer validate each drained clip, a rolling context
//! window conditions LLM-based transcript correction, and an orchestrator
//! state machine drives one press-to-release cycle from audio to final text.

pub mod buffer;
pub mod config;
pub mod context;
pub mod corrector;
pub mod domain;
pub mod fallback;
pub mod hotkey;
pub mod inject;
pub mod model;
pub mod paths;
pub mod prompt;
pub mod quality;
pub mod runner;
pub mod state;
pub mod stt;
pub mod text;
pub mod thai;
pub mod vad;
pub mod vocabulary;
pub mod waveform;
