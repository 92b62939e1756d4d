//! Hotkey events and key-name parsing.
//!
//! The OS-level listener that watches the keyboard is an outside
//! collaborator; the library models the watchable keys as [`Key`] and parses
//! configuration strings into them, and the orchestrator consumes the
//! resulting [`HotkeyEvent`] stream.

use vstd::prelude::*;

use crate::text::str_eq;

verus! {

/// Events emitted by the hotkey listener.
#[derive(Debug, Clone, Copy, PartialEq, Eq, Structural)]
pub enum HotkeyEvent {
    /// The push-to-talk key was pressed down.
    PushToTalkPressed,
    /// The push-to-talk key was released.
    PushToTalkReleased,
    /// The visibility-toggle shortcut was activated.
    ToggleVisibility,
}

/// A keyboard key the hotkey listener can watch: function keys, common
/// named keys and letters.
#[derive(Debug, Clone, Copy, PartialEq, Eq, Structural)]
pub enum Key {
    F1,
    F2,
    F3,
    F4,
    F5,
    F6,
    F7,
    F8,
    F9,
    F10,
    F11,
    F12,
    Escape,
    Space,
    Return,
    Tab,
    Backspace,
    Delete,
    Home,
    End,
    PageUp,
    PageDown,
    UpArrow,
    DownArrow,
    LeftArrow,
    RightArrow,
    CapsLock,
    NumLock,
    ScrollLock,
    PrintScreen,
    Pause,
    KeyA,
    KeyB,
    KeyC,
    KeyD,
    KeyE,
    KeyF,
    KeyG,
    KeyH,
    KeyI,
    KeyJ,
    KeyK,
    KeyL,
    KeyM,
    KeyN,
    KeyO,
    KeyP,
    KeyQ,
    KeyR,
    KeyS,
    KeyT,
    KeyU,
    KeyV,
    KeyW,
    KeyX,
    KeyY,
    KeyZ,
}

/// The key a configuration name denotes: F1 through F12, the common named
/// keys (with their usual aliases), and single letters, case-insensitive.
/// Unrecognised names yield `None`.
pub open spec fn spec_parse_key(s: Seq<char>) -> Option<Key> {
    if s == "F1"@ {
        Some(Key::F1)
    } else if s == "F2"@ {
        Some(Key::F2)
    } else if s == "F3"@ {
        Some(Key::F3)
    } else if s == "F4"@ {
        Some(Key::F4)
    } else if s == "F5"@ {
        Some(Key::F5)
    } else if s == "F6"@ {
        Some(Key::F6)
    } else if s == "F7"@ {
        Some(Key::F7)
    } else if s == "F8"@ {
        Some(Key::F8)
    } else if s == "F9"@ {
        Some(Key::F9)
    } else if s == "F10"@ {
        Some(Key::F10)
    } else if s == "F11"@ {
        Some(Key::F11)
    } else if s == "F12"@ {
        Some(Key::F12)
    } else if s == "Escape"@ || s == "Esc"@ {
        Some(Key::Escape)
    } else if s == "Space"@ {
        Some(Key::Space)
    } else if s == "Return"@ || s == "Enter"@ {
        Some(Key::Return)
    } else if s == "Tab"@ {
        Some(Key::Tab)
    } else if s == "Backspace"@ {
        Some(Key::Backspace)
    } else if s == "Delete"@ || s == "Del"@ {
        Some(Key::Delete)
    } else if s == "Home"@ {
        Some(Key::Home)
    } else if s == "End"@ {
        Some(Key::End)
    } else if s == "PageUp"@ {
        Some(Key::PageUp)
    } else if s == "PageDown"@ {
        Some(Key::PageDown)
    } else if s == "UpArrow"@ || s == "Up"@ {
        Some(Key::UpArrow)
    } else if s == "DownArrow"@ || s == "Down"@ {
        Some(Key::DownArrow)
    } else if s == "LeftArrow"@ || s == "Left"@ {
        Some(Key::LeftArrow)
    } else if s == "RightArrow"@ || s == "Right"@ {
        Some(Key::RightArrow)
    } else if s == "CapsLock"@ {
        Some(Key::CapsLock)
    } else if s == "NumLock"@ {
        Some(Key::NumLock)
    } else if s == "ScrollLock"@ {
        Some(Key::ScrollLock)
    } else if s == "PrintScreen"@ {
        Some(Key::PrintScreen)
    } else if s == "Pause"@ {
        Some(Key::Pause)
    } else if s == "A"@ || s == "a"@ {
        Some(Key::KeyA)
    } else if s == "B"@ || s == "b"@ {
        Some(Key::KeyB)
    } else if s == "C"@ || s == "c"@ {
        Some(Key::KeyC)
    } else if s == "D"@ || s == "d"@ {
        Some(Key::KeyD)
    } else if s == "E"@ || s == "e"@ {
        Some(Key::KeyE)
    } else if s == "F"@ || s == "f"@ {
        Some(Key::KeyF)
    } else if s == "G"@ || s == "g"@ {
        Some(Key::KeyG)
    } else if s == "H"@ || s == "h"@ {
        Some(Key::KeyH)
    } else if s == "I"@ || s == "i"@ {
        Some(Key::KeyI)
    } else if s == "J"@ || s == "j"@ {
        Some(Key::KeyJ)
    } else if s == "K"@ || s == "k"@ {
        Some(Key::KeyK)
    } else if s == "L"@ || s == "l"@ {
        Some(Key::KeyL)
    } else if s == "M"@ || s == "m"@ {
        Some(Key::KeyM)
    } else if s == "N"@ || s == "n"@ {
        Some(Key::KeyN)
    } else if s == "O"@ || s == "o"@ {
        Some(Key::KeyO)
    } else if s == "P"@ || s == "p"@ {
        Some(Key::KeyP)
    } else if s == "Q"@ || s == "q"@ {
        Some(Key::KeyQ)
    } else if s == "R"@ || s == "r"@ {
        Some(Key::KeyR)
    } else if s == "S"@ || s == "s"@ {
        Some(Key::KeyS)
    } else if s == "T"@ || s == "t"@ {
        Some(Key::KeyT)
    } else if s == "U"@ || s == "u"@ {
        Some(Key::KeyU)
    } else if s == "V"@ || s == "v"@ {
        Some(Key::KeyV)
    } else if s == "W"@ || s == "w"@ {
        Some(Key::KeyW)
    } else if s == "X"@ || s == "x"@ {
        Some(Key::KeyX)
    } else if s == "Y"@ || s == "y"@ {
        Some(Key::KeyY)
    } else if s == "Z"@ || s == "z"@ {
        Some(Key::KeyZ)
    } else {
        None
    }
}

/// Parse a hotkey name from a configuration string into a [`Key`].
///
/// Supports F1 through F12, common named keys, and single uppercase or
/// lowercase letters.  Returns `None` for unrecognised names so callers can
/// fall back to a default.
pub fn parse_key(key_str: &str) -> (r: Option<Key>)
    ensures
        r == spec_parse_key(key_str@),
{
    if str_eq(key_str, "F1") {
        Some(Key::F1)
    } else if str_eq(key_str, "F2") {
        Some(Key::F2)
    } else if str_eq(key_str, "F3") {
        Some(Key::F3)
    } else if str_eq(key_str, "F4") {
        Some(Key::F4)
    } else if str_eq(key_str, "F5") {
        Some(Key::F5)
    } else if str_eq(key_str, "F6") {
        Some(Key::F6)
    } else if str_eq(key_str, "F7") {
        Some(Key::F7)
    } else if str_eq(key_str, "F8") {
        Some(Key::F8)
    } else if str_eq(key_str, "F9") {
        Some(Key::F9)
    } else if str_eq(key_str, "F10") {
        Some(Key::F10)
    } else if str_eq(key_str, "F11") {
        Some(Key::F11)
    } else if str_eq(key_str, "F12") {
        Some(Key::F12)
    } else if str_eq(key_str, "Escape") || str_eq(key_str, "Esc") {
        Some(Key::Escape)
    } else if str_eq(key_str, "Space") {
        Some(Key::Space)
    } else if str_eq(key_str, "Return") || str_eq(key_str, "Enter") {
        Some(Key::Return)
    } else if str_eq(key_str, "Tab") {
        Some(Key::Tab)
    } else if str_eq(key_str, "Backspace") {
        Some(Key::Backspace)
    } else if str_eq(key_str, "Delete") || str_eq(key_str, "Del") {
        Some(Key::Delete)
    } else if str_eq(key_str, "Home") {
        Some(Key::Home)
    } else if str_eq(key_str, "End") {
        Some(Key::End)
    } else if str_eq(key_str, "PageUp") {
        Some(Key::PageUp)
    } else if str_eq(key_str, "PageDown") {
        Some(Key::PageDown)
    } else if str_eq(key_str, "UpArrow") || str_eq(key_str, "Up") {
        Some(Key::UpArrow)
    } else if str_eq(key_str, "DownArrow") || str_eq(key_str, "Down") {
        Some(Key::DownArrow)
    } else if str_eq(key_str, "LeftArrow") || str_eq(key_str, "Left") {
        Some(Key::LeftArrow)
    } else if str_eq(key_str, "RightArrow") || str_eq(key_str, "Right") {
        Some(Key::RightArrow)
    } else if str_eq(key_str, "CapsLock") {
        Some(Key::CapsLock)
    } else if str_eq(key_str, "NumLock") {
        Some(Key::NumLock)
    } else if str_eq(key_str, "ScrollLock") {
        Some(Key::ScrollLock)
    } else if str_eq(key_str, "PrintScreen") {
        Some(Key::PrintScreen)
    } else if str_eq(key_str, "Pause") {
        Some(Key::Pause)
    } else if str_eq(key_str, "A") || str_eq(key_str, "a") {
        Some(Key::KeyA)
    } else if str_eq(key_str, "B") || str_eq(key_str, "b") {
        Some(Key::KeyB)
    } else if str_eq(key_str, "C") || str_eq(key_str, "c") {
        Some(Key::KeyC)
    } else if str_eq(key_str, "D") || str_eq(key_str, "d") {
        Some(Key::KeyD)
    } else if str_eq(key_str, "E") || str_eq(key_str, "e") {
        Some(Key::KeyE)
    } else if str_eq(key_str, "F") || str_eq(key_str, "f") {
        Some(Key::KeyF)
    } else if str_eq(key_str, "G") || str_eq(key_str, "g") {
        Some(Key::KeyG)
    } else if str_eq(key_str, "H") || str_eq(key_str, "h") {
        Some(Key::KeyH)
    } else if str_eq(key_str, "I") || str_eq(key_str, "i") {
        Some(Key::KeyI)
    } else if str_eq(key_str, "J") || str_eq(key_str, "j") {
        Some(Key::KeyJ)
    } else if str_eq(key_str, "K") || str_eq(key_str, "k") {
        Some(Key::KeyK)
    } else if str_eq(key_str, "L") || str_eq(key_str, "l") {
        Some(Key::KeyL)
    } else if str_eq(key_str, "M") || str_eq(key_str, "m") {
        Some(Key::KeyM)
    } else if str_eq(key_str, "N") || str_eq(key_str, "n") {
        Some(Key::KeyN)
    } else if str_eq(key_str, "O") || str_eq(key_str, "o") {
        Some(Key::KeyO)
    } else if str_eq(key_str, "P") || str_eq(key_str, "p") {
        Some(Key::KeyP)
    } else if str_eq(key_str, "Q") || str_eq(key_str, "q") {
        Some(Key::KeyQ)
    } else if str_eq(key_str, "R") || str_eq(key_str, "r") {
        Some(Key::KeyR)
    } else if str_eq(key_str, "S") || str_eq(key_str, "s") {
        Some(Key::KeyS)
    } else if str_eq(key_str, "T") || str_eq(key_str, "t") {
        Some(Key::KeyT)
    } else if str_eq(key_str, "U") || str_eq(key_str, "u") {
        Some(Key::KeyU)
    } else if str_eq(key_str, "V") || str_eq(key_str, "v") {
        Some(Key::KeyV)
    } else if str_eq(key_str, "W") || str_eq(key_str, "w") {
        Some(Key::KeyW)
    } else if str_eq(key_str, "X") || str_eq(key_str, "x") {
        Some(Key::KeyX)
    } else if str_eq(key_str, "Y") || str_eq(key_str, "y") {
        Some(Key::KeyY)
    } else if str_eq(key_str, "Z") || str_eq(key_str, "z") {
        Some(Key::KeyZ)
    } else {
        None
    }
}

} // verus!
