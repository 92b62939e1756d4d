//! Text-injection types.
//!
//! The actual clipboard and key-simulation work is platform I/O and lives
//! outside the library; here are the error taxonomy the pipeline reports and
//! the injector's timing configuration.

use vstd::prelude::*;

verus! {

/// All errors that can surface during text injection.
#[derive(Debug, Clone, PartialEq)]
pub enum InjectError {
    /// Could not open or read the system clipboard.
    ClipboardAccess(String),
    /// Could not write text to the system clipboard.
    ClipboardSet(String),
    /// Could not simulate a key press or release event.
    KeySimulation(String),
    /// The target window lost focus before the paste completed.
    TargetWindowLost,
    /// The supplied text did not pass validation.
    Validation(String),
}

impl InjectError {
    /// Human-readable description.
    pub fn message(&self) -> (r: String)
        ensures
            r@ == self.spec_message(),
    {
        match self {
            InjectError::ClipboardAccess(m) => {
                let mut s = String::new();
                s.append("cannot access clipboard: ");
                s.append(m.as_str());
                s
            },
            InjectError::ClipboardSet(m) => {
                let mut s = String::new();
                s.append("cannot set clipboard text: ");
                s.append(m.as_str());
                s
            },
            InjectError::KeySimulation(m) => {
                let mut s = String::new();
                s.append("cannot simulate key press: ");
                s.append(m.as_str());
                s
            },
            InjectError::TargetWindowLost => "target window lost focus before paste".to_owned(),
            InjectError::Validation(m) => {
                let mut s = String::new();
                s.append("text validation failed: ");
                s.append(m.as_str());
                s
            },
        }
    }

    /// The text [`message`](Self::message) returns.
    pub open spec fn spec_message(&self) -> Seq<char> {
        match self {
            InjectError::ClipboardAccess(m) => "cannot access clipboard: "@ + m@,
            InjectError::ClipboardSet(m) => "cannot set clipboard text: "@ + m@,
            InjectError::KeySimulation(m) => "cannot simulate key press: "@ + m@,
            InjectError::TargetWindowLost => "target window lost focus before paste"@,
            InjectError::Validation(m) => "text validation failed: "@ + m@,
        }
    }
}

/// Timing configuration for clipboard-paste injection: how long to wait
/// after setting the clipboard before simulating the paste, and after the
/// paste before restoring the original clipboard content.
#[derive(Debug, Clone)]
pub struct TextInjector {
    /// Milliseconds to wait after setting the clipboard before simulating
    /// the paste shortcut.
    pub delay_ms: u64,
    /// Milliseconds to wait after simulating the paste before restoring the
    /// original clipboard.
    pub restore_delay_ms: u64,
}

impl Default for TextInjector {
    fn default() -> (r: Self)
        ensures
            r.delay_ms == 50,
            r.restore_delay_ms == 100,
    {
        TextInjector { delay_ms: 50, restore_delay_ms: 100 }
    }
}

impl TextInjector {
    /// Create a `TextInjector` with the default delays (50 ms / 100 ms).
    pub fn new() -> (r: Self)
        ensures
            r.delay_ms == 50,
            r.restore_delay_ms == 100,
    {
        Default::default()
    }
}

} // verus!
