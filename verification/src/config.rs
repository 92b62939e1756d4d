//! Application settings: operating mode, per-subsystem configuration and
//! defaults.  Persistence to disk is an I/O concern handled outside the
//! library; these types carry the values the pipeline reads.
//!
//! Fractional thresholds are fixed-point: 10 000 units stand for 1.0, and
//! `temperature_milli` is thousandths (300 stands for 0.3).

use vstd::prelude::*;

verus! {

/// Selects the processing pipeline complexity.
///
/// `Fast` runs STT and injection only; `Standard` adds zero-shot LLM
/// correction; `Context` adds the rolling context window, domain detection
/// and user vocabulary on top.
#[derive(Debug, Clone, Copy, PartialEq, Eq, Structural)]
pub enum OperatingMode {
    /// STT only — lowest latency.
    Fast,
    /// STT plus zero-shot LLM correction.
    Standard,
    /// STT plus LLM correction conditioned on rolling context.
    Context,
}

impl Default for OperatingMode {
    fn default() -> (r: Self)
        ensures
            r == OperatingMode::Standard,
    {
        OperatingMode::Standard
    }
}

/// Selects which LLM backend handles post-processing.
#[derive(Debug, Clone, Copy, PartialEq, Eq, Structural)]
pub enum LlmProvider {
    /// Ollama running locally — no authentication required.
    Ollama,
    /// Any OpenAI-compatible REST API.
    OpenAiCompatible,
    /// In-process inference.
    LlamaCpp,
    /// LLM disabled — forces fast mode.
    Disabled,
}

impl Default for LlmProvider {
    fn default() -> (r: Self)
        ensures
            r == LlmProvider::Ollama,
    {
        LlmProvider::Ollama
    }
}

/// Settings for the LLM post-processing step.
#[derive(Debug, Clone)]
pub struct LlmConfig {
    /// Whether LLM correction is active at all.
    pub enabled: bool,
    /// Which backend to use.
    pub provider: LlmProvider,
    /// Base URL of the API endpoint.
    pub base_url: String,
    /// API key — `None` for local providers.
    pub api_key: Option<String>,
    /// Model identifier sent to the API.
    pub model: String,
    /// Sampling temperature in thousandths (300 stands for 0.3).
    pub temperature_milli: u32,
    /// Maximum seconds to wait for an LLM response before timing out.
    pub timeout_secs: u64,
}

impl Default for LlmConfig {
    fn default() -> (r: Self)
        ensures
            r.enabled == true,
            r.provider == LlmProvider::Ollama,
            r.base_url@ == "http://localhost:11434"@,
            r.api_key is None,
            r.model@ == "qwen2.5:3b"@,
            r.temperature_milli == 300,
            r.timeout_secs == 10,
    {
        LlmConfig {
            enabled: true,
            provider: LlmProvider::Ollama,
            base_url: "http://localhost:11434".to_owned(),
            api_key: None,
            model: "qwen2.5:3b".to_owned(),
            temperature_milli: 300,
            timeout_secs: 10,
        }
    }
}

/// Settings for the STT engine.
#[derive(Debug, Clone)]
pub struct SttConfig {
    /// Model identifier (e.g. a file stem under the models directory).
    pub model: String,
    /// Primary speech language as an ISO-639-1 code, or `"auto"`.
    pub language: String,
    /// Attempt GPU-accelerated inference when available.
    pub use_gpu: bool,
    /// Audio input device name — `None` means the system default.
    pub audio_device: Option<String>,
}

impl Default for SttConfig {
    fn default() -> (r: Self)
        ensures
            r.model@ == "thonburian-medium"@,
            r.language@ == "th"@,
            r.use_gpu == false,
            r.audio_device is None,
    {
        SttConfig {
            model: "thonburian-medium".to_owned(),
            language: "th".to_owned(),
            use_gpu: false,
            audio_device: None,
        }
    }
}

/// Settings for audio capture and voice-activity detection.
#[derive(Debug, Clone)]
pub struct AudioConfig {
    /// Target sample rate in Hz handed to the STT engine (16 000).
    pub sample_rate: u32,
    /// VAD confidence threshold in fixed-point units (5 000 stands for 0.5).
    pub vad_threshold: u16,
    /// Minimum recording length in milliseconds before transcription.
    pub min_recording_ms: u32,
    /// Maximum recording length in milliseconds.
    pub max_recording_ms: u32,
}

impl Default for AudioConfig {
    fn default() -> (r: Self)
        ensures
            r.sample_rate == 16000,
            r.vad_threshold == 5000,
            r.min_recording_ms == 500,
            r.max_recording_ms == 60000,
    {
        AudioConfig {
            sample_rate: 16000,
            vad_threshold: 5000,
            min_recording_ms: 500,
            max_recording_ms: 60000,
        }
    }
}

/// Global hotkey bindings, by key name.
#[derive(Debug, Clone)]
pub struct HotkeyConfig {
    /// Push-to-talk key name (e.g. `"F9"`).
    pub push_to_talk_key: String,
    /// Key combination that toggles widget visibility.
    pub toggle_visibility_key: String,
}

impl Default for HotkeyConfig {
    fn default() -> (r: Self)
        ensures
            r.push_to_talk_key@ == "F9"@,
            r.toggle_visibility_key@ == "Ctrl+Shift+T"@,
    {
        HotkeyConfig {
            push_to_talk_key: "F9".to_owned(),
            toggle_visibility_key: "Ctrl+Shift+T".to_owned(),
        }
    }
}

/// Widget appearance and behaviour settings.
#[derive(Debug, Clone)]
pub struct UiConfig {
    /// Last saved widget position in screen pixels, or `None` to let the
    /// window manager pick one.
    pub window_position: Option<(i32, i32)>,
    /// Keep the widget floating above all other windows.
    pub always_on_top: bool,
    /// Automatically inject the final text.
    pub auto_inject: bool,
    /// Display the raw STT transcript while correction is running.
    pub show_raw_text: bool,
}

impl Default for UiConfig {
    fn default() -> (r: Self)
        ensures
            r.window_position is None,
            r.always_on_top == true,
            r.auto_inject == true,
            r.show_raw_text == true,
    {
        UiConfig {
            window_position: None,
            always_on_top: true,
            auto_inject: true,
            show_raw_text: true,
        }
    }
}

/// Settings that control the rolling context window used in context mode.
#[derive(Debug, Clone)]
pub struct ContextConfig {
    /// Number of previous sentences kept in the rolling context window.
    pub window_size: usize,
    /// Seconds of silence after which the context window is cleared.
    pub reset_silence_secs: u64,
}

impl Default for ContextConfig {
    fn default() -> (r: Self)
        ensures
            r.window_size == 3,
            r.reset_silence_secs == 120,
    {
        ContextConfig { window_size: 3, reset_silence_secs: 120 }
    }
}

/// Top-level application configuration.
#[derive(Debug, Clone)]
pub struct AppConfig {
    /// Selected operating mode.
    pub operating_mode: OperatingMode,
    /// LLM post-processing settings.
    pub llm: LlmConfig,
    /// STT engine settings.
    pub stt: SttConfig,
    /// Audio capture and VAD settings.
    pub audio: AudioConfig,
    /// Global hotkey bindings.
    pub hotkey: HotkeyConfig,
    /// Widget settings.
    pub ui: UiConfig,
    /// Rolling context window settings.
    pub context: ContextConfig,
}

impl Default for AppConfig {
    fn default() -> (r: Self)
        ensures
            r.operating_mode == OperatingMode::Standard,
            r.llm.base_url@ == "http://localhost:11434"@,
            r.llm.model@ == "qwen2.5:3b"@,
            r.llm.timeout_secs == 10,
            r.llm.api_key is None,
            r.stt.model@ == "thonburian-medium"@,
            r.stt.language@ == "th"@,
            r.audio.sample_rate == 16000,
            r.hotkey.push_to_talk_key@ == "F9"@,
            r.ui.always_on_top == true,
            r.context.window_size == 3,
            r.context.reset_silence_secs == 120,
    {
        AppConfig {
            operating_mode: Default::default(),
            llm: Default::default(),
            stt: Default::default(),
            audio: Default::default(),
            hotkey: Default::default(),
            ui: Default::default(),
            context: Default::default(),
        }
    }
}

} // verus!
