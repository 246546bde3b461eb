//! Keyboard input: key codes and the keyboard half of the command vector.
//!
//! Key bindings are stored as UI key-code strings ("KeyW", "Space", ...).
//! [`key_code_of`] resolves such a string to the crate's own [`KeyCode`];
//! the platform layer maps a `KeyCode` to whatever its keyboard API wants.
//! [`keyboard_axes`] turns the pressed/released state of the twelve bound
//! movement keys into a clamped six-axis vector.

use vstd::prelude::*;
use crate::axes::{axis_in_range, CommandVector, AXIS_UNIT};

verus! {

/// A physical key the station can bind, named by its UI key code.
#[derive(Clone, Copy, PartialEq, Eq, Structural, Debug)]
pub enum KeyCode {
    KeyA,
    KeyB,
    KeyC,
    KeyD,
    KeyE,
    KeyF,
    KeyG,
    KeyH,
    KeyI,
    KeyJ,
    KeyK,
    KeyL,
    KeyM,
    KeyN,
    KeyO,
    KeyP,
    KeyQ,
    KeyR,
    KeyS,
    KeyT,
    KeyU,
    KeyV,
    KeyW,
    KeyX,
    KeyY,
    KeyZ,
    Digit1,
    Digit2,
    Digit3,
    Digit4,
    Digit5,
    Digit6,
    Digit7,
    Digit8,
    Digit9,
    Digit0,
    F1,
    F2,
    F3,
    F4,
    F5,
    F6,
    F7,
    F8,
    F9,
    F10,
    F11,
    F12,
    Enter,
    Escape,
    Backspace,
    Tab,
    Space,
    Minus,
    Equal,
    BracketLeft,
    BracketRight,
    Backslash,
    Semicolon,
    Quote,
    Backquote,
    Comma,
    Period,
    Slash,
    CapsLock,
    ArrowRight,
    ArrowLeft,
    ArrowDown,
    ArrowUp,
    ControlLeft,
    ShiftLeft,
    AltLeft,
    MetaLeft,
    ControlRight,
    ShiftRight,
    AltRight,
    MetaRight,
    PrintScreen,
    ScrollLock,
    Pause,
    Insert,
    Home,
    PageUp,
    Delete,
    End,
    PageDown,
    NumLock,
    NumpadDivide,
    NumpadMultiply,
    NumpadSubtract,
    NumpadAdd,
    NumpadEnter,
    Numpad1,
    Numpad2,
    Numpad3,
    Numpad4,
    Numpad5,
    Numpad6,
    Numpad7,
    Numpad8,
    Numpad9,
    Numpad0,
    NumpadDecimal,
}

/// The key a binding string names, if any.
pub open spec fn spec_key_code(s: Seq<char>) -> Option<KeyCode> {
    if s == "KeyA"@ {
        Option::Some(KeyCode::KeyA)
    } else if s == "KeyB"@ {
        Option::Some(KeyCode::KeyB)
    } else if s == "KeyC"@ {
        Option::Some(KeyCode::KeyC)
    } else if s == "KeyD"@ {
        Option::Some(KeyCode::KeyD)
    } else if s == "KeyE"@ {
        Option::Some(KeyCode::KeyE)
    } else if s == "KeyF"@ {
        Option::Some(KeyCode::KeyF)
    } else if s == "KeyG"@ {
        Option::Some(KeyCode::KeyG)
    } else if s == "KeyH"@ {
        Option::Some(KeyCode::KeyH)
    } else if s == "KeyI"@ {
        Option::Some(KeyCode::KeyI)
    } else if s == "KeyJ"@ {
        Option::Some(KeyCode::KeyJ)
    } else if s == "KeyK"@ {
        Option::Some(KeyCode::KeyK)
    } else if s == "KeyL"@ {
        Option::Some(KeyCode::KeyL)
    } else if s == "KeyM"@ {
        Option::Some(KeyCode::KeyM)
    } else if s == "KeyN"@ {
        Option::Some(KeyCode::KeyN)
    } else if s == "KeyO"@ {
        Option::Some(KeyCode::KeyO)
    } else if s == "KeyP"@ {
        Option::Some(KeyCode::KeyP)
    } else if s == "KeyQ"@ {
        Option::Some(KeyCode::KeyQ)
    } else if s == "KeyR"@ {
        Option::Some(KeyCode::KeyR)
    } else if s == "KeyS"@ {
        Option::Some(KeyCode::KeyS)
    } else if s == "KeyT"@ {
        Option::Some(KeyCode::KeyT)
    } else if s == "KeyU"@ {
        Option::Some(KeyCode::KeyU)
    } else if s == "KeyV"@ {
        Option::Some(KeyCode::KeyV)
    } else if s == "KeyW"@ {
        Option::Some(KeyCode::KeyW)
    } else if s == "KeyX"@ {
        Option::Some(KeyCode::KeyX)
    } else if s == "KeyY"@ {
        Option::Some(KeyCode::KeyY)
    } else if s == "KeyZ"@ {
        Option::Some(KeyCode::KeyZ)
    } else if s == "Digit1"@ {
        Option::Some(KeyCode::Digit1)
    } else if s == "Digit2"@ {
        Option::Some(KeyCode::Digit2)
    } else if s == "Digit3"@ {
        Option::Some(KeyCode::Digit3)
    } else if s == "Digit4"@ {
        Option::Some(KeyCode::Digit4)
    } else if s == "Digit5"@ {
        Option::Some(KeyCode::Digit5)
    } else if s == "Digit6"@ {
        Option::Some(KeyCode::Digit6)
    } else if s == "Digit7"@ {
        Option::Some(KeyCode::Digit7)
    } else if s == "Digit8"@ {
        Option::Some(KeyCode::Digit8)
    } else if s == "Digit9"@ {
        Option::Some(KeyCode::Digit9)
    } else if s == "Digit0"@ {
        Option::Some(KeyCode::Digit0)
    } else if s == "F1"@ {
        Option::Some(KeyCode::F1)
    } else if s == "F2"@ {
        Option::Some(KeyCode::F2)
    } else if s == "F3"@ {
        Option::Some(KeyCode::F3)
    } else if s == "F4"@ {
        Option::Some(KeyCode::F4)
    } else if s == "F5"@ {
        Option::Some(KeyCode::F5)
    } else if s == "F6"@ {
        Option::Some(KeyCode::F6)
    } else if s == "F7"@ {
        Option::Some(KeyCode::F7)
    } else if s == "F8"@ {
        Option::Some(KeyCode::F8)
    } else if s == "F9"@ {
        Option::Some(KeyCode::F9)
    } else if s == "F10"@ {
        Option::Some(KeyCode::F10)
    } else if s == "F11"@ {
        Option::Some(KeyCode::F11)
    } else if s == "F12"@ {
        Option::Some(KeyCode::F12)
    } else if s == "Enter"@ {
        Option::Some(KeyCode::Enter)
    } else if s == "Escape"@ {
        Option::Some(KeyCode::Escape)
    } else if s == "Backspace"@ {
        Option::Some(KeyCode::Backspace)
    } else if s == "Tab"@ {
        Option::Some(KeyCode::Tab)
    } else if s == "Space"@ {
        Option::Some(KeyCode::Space)
    } else if s == "Minus"@ {
        Option::Some(KeyCode::Minus)
    } else if s == "Equal"@ {
        Option::Some(KeyCode::Equal)
    } else if s == "BracketLeft"@ {
        Option::Some(KeyCode::BracketLeft)
    } else if s == "BracketRight"@ {
        Option::Some(KeyCode::BracketRight)
    } else if s == "Backslash"@ {
        Option::Some(KeyCode::Backslash)
    } else if s == "Semicolon"@ {
        Option::Some(KeyCode::Semicolon)
    } else if s == "Quote"@ {
        Option::Some(KeyCode::Quote)
    } else if s == "Backquote"@ {
        Option::Some(KeyCode::Backquote)
    } else if s == "Comma"@ {
        Option::Some(KeyCode::Comma)
    } else if s == "Period"@ {
        Option::Some(KeyCode::Period)
    } else if s == "Slash"@ {
        Option::Some(KeyCode::Slash)
    } else if s == "CapsLock"@ {
        Option::Some(KeyCode::CapsLock)
    } else if s == "ArrowRight"@ {
        Option::Some(KeyCode::ArrowRight)
    } else if s == "ArrowLeft"@ {
        Option::Some(KeyCode::ArrowLeft)
    } else if s == "ArrowDown"@ {
        Option::Some(KeyCode::ArrowDown)
    } else if s == "ArrowUp"@ {
        Option::Some(KeyCode::ArrowUp)
    } else if s == "ControlLeft"@ {
        Option::Some(KeyCode::ControlLeft)
    } else if s == "ShiftLeft"@ {
        Option::Some(KeyCode::ShiftLeft)
    } else if s == "AltLeft"@ {
        Option::Some(KeyCode::AltLeft)
    } else if s == "MetaLeft"@ {
        Option::Some(KeyCode::MetaLeft)
    } else if s == "ControlRight"@ {
        Option::Some(KeyCode::ControlRight)
    } else if s == "ShiftRight"@ {
        Option::Some(KeyCode::ShiftRight)
    } else if s == "AltRight"@ {
        Option::Some(KeyCode::AltRight)
    } else if s == "MetaRight"@ {
        Option::Some(KeyCode::MetaRight)
    } else if s == "PrintScreen"@ {
        Option::Some(KeyCode::PrintScreen)
    } else if s == "ScrollLock"@ {
        Option::Some(KeyCode::ScrollLock)
    } else if s == "Pause"@ {
        Option::Some(KeyCode::Pause)
    } else if s == "Insert"@ {
        Option::Some(KeyCode::Insert)
    } else if s == "Home"@ {
        Option::Some(KeyCode::Home)
    } else if s == "PageUp"@ {
        Option::Some(KeyCode::PageUp)
    } else if s == "Delete"@ {
        Option::Some(KeyCode::Delete)
    } else if s == "End"@ {
        Option::Some(KeyCode::End)
    } else if s == "PageDown"@ {
        Option::Some(KeyCode::PageDown)
    } else if s == "NumLock"@ {
        Option::Some(KeyCode::NumLock)
    } else if s == "NumpadDivide"@ {
        Option::Some(KeyCode::NumpadDivide)
    } else if s == "NumpadMultiply"@ {
        Option::Some(KeyCode::NumpadMultiply)
    } else if s == "NumpadSubtract"@ {
        Option::Some(KeyCode::NumpadSubtract)
    } else if s == "NumpadAdd"@ {
        Option::Some(KeyCode::NumpadAdd)
    } else if s == "NumpadEnter"@ {
        Option::Some(KeyCode::NumpadEnter)
    } else if s == "Numpad1"@ {
        Option::Some(KeyCode::Numpad1)
    } else if s == "Numpad2"@ {
        Option::Some(KeyCode::Numpad2)
    } else if s == "Numpad3"@ {
        Option::Some(KeyCode::Numpad3)
    } else if s == "Numpad4"@ {
        Option::Some(KeyCode::Numpad4)
    } else if s == "Numpad5"@ {
        Option::Some(KeyCode::Numpad5)
    } else if s == "Numpad6"@ {
        Option::Some(KeyCode::Numpad6)
    } else if s == "Numpad7"@ {
        Option::Some(KeyCode::Numpad7)
    } else if s == "Numpad8"@ {
        Option::Some(KeyCode::Numpad8)
    } else if s == "Numpad9"@ {
        Option::Some(KeyCode::Numpad9)
    } else if s == "Numpad0"@ {
        Option::Some(KeyCode::Numpad0)
    } else if s == "NumpadDecimal"@ {
        Option::Some(KeyCode::NumpadDecimal)
    } else {
        Option::None
    }
}

/// String equality by contents.
fn str_eq(a: &str, b: &str) -> (r: bool)
    ensures
        r == (a@ == b@),
{
    let x = a.to_owned();
    let y = b.to_owned();
    x == y
}

/// Resolve a binding string to the key it names. Returns `None` exactly for
/// strings that name no key, so an unknown binding reads as "never pressed".
#[verifier::rlimit(30)]
pub fn key_code_of(s: &str) -> (r: Option<KeyCode>)
    ensures
        r == spec_key_code(s@),
{
    if str_eq(s, "KeyA") {
        Some(KeyCode::KeyA)
    } else if str_eq(s, "KeyB") {
        Some(KeyCode::KeyB)
    } else if str_eq(s, "KeyC") {
        Some(KeyCode::KeyC)
    } else if str_eq(s, "KeyD") {
        Some(KeyCode::KeyD)
    } else if str_eq(s, "KeyE") {
        Some(KeyCode::KeyE)
    } else if str_eq(s, "KeyF") {
        Some(KeyCode::KeyF)
    } else if str_eq(s, "KeyG") {
        Some(KeyCode::KeyG)
    } else if str_eq(s, "KeyH") {
        Some(KeyCode::KeyH)
    } else if str_eq(s, "KeyI") {
        Some(KeyCode::KeyI)
    } else if str_eq(s, "KeyJ") {
        Some(KeyCode::KeyJ)
    } else if str_eq(s, "KeyK") {
        Some(KeyCode::KeyK)
    } else if str_eq(s, "KeyL") {
        Some(KeyCode::KeyL)
    } else if str_eq(s, "KeyM") {
        Some(KeyCode::KeyM)
    } else if str_eq(s, "KeyN") {
        Some(KeyCode::KeyN)
    } else if str_eq(s, "KeyO") {
        Some(KeyCode::KeyO)
    } else if str_eq(s, "KeyP") {
        Some(KeyCode::KeyP)
    } else if str_eq(s, "KeyQ") {
        Some(KeyCode::KeyQ)
    } else if str_eq(s, "KeyR") {
        Some(KeyCode::KeyR)
    } else if str_eq(s, "KeyS") {
        Some(KeyCode::KeyS)
    } else if str_eq(s, "KeyT") {
        Some(KeyCode::KeyT)
    } else if str_eq(s, "KeyU") {
        Some(KeyCode::KeyU)
    } else if str_eq(s, "KeyV") {
        Some(KeyCode::KeyV)
    } else if str_eq(s, "KeyW") {
        Some(KeyCode::KeyW)
    } else if str_eq(s, "KeyX") {
        Some(KeyCode::KeyX)
    } else if str_eq(s, "KeyY") {
        Some(KeyCode::KeyY)
    } else if str_eq(s, "KeyZ") {
        Some(KeyCode::KeyZ)
    } else if str_eq(s, "Digit1") {
        Some(KeyCode::Digit1)
    } else if str_eq(s, "Digit2") {
        Some(KeyCode::Digit2)
    } else if str_eq(s, "Digit3") {
        Some(KeyCode::Digit3)
    } else if str_eq(s, "Digit4") {
        Some(KeyCode::Digit4)
    } else if str_eq(s, "Digit5") {
        Some(KeyCode::Digit5)
    } else if str_eq(s, "Digit6") {
        Some(KeyCode::Digit6)
    } else if str_eq(s, "Digit7") {
        Some(KeyCode::Digit7)
    } else if str_eq(s, "Digit8") {
        Some(KeyCode::Digit8)
    } else if str_eq(s, "Digit9") {
        Some(KeyCode::Digit9)
    } else if str_eq(s, "Digit0") {
        Some(KeyCode::Digit0)
    } else if str_eq(s, "F1") {
        Some(KeyCode::F1)
    } else if str_eq(s, "F2") {
        Some(KeyCode::F2)
    } else if str_eq(s, "F3") {
        Some(KeyCode::F3)
    } else if str_eq(s, "F4") {
        Some(KeyCode::F4)
    } else if str_eq(s, "F5") {
        Some(KeyCode::F5)
    } else if str_eq(s, "F6") {
        Some(KeyCode::F6)
    } else if str_eq(s, "F7") {
        Some(KeyCode::F7)
    } else if str_eq(s, "F8") {
        Some(KeyCode::F8)
    } else if str_eq(s, "F9") {
        Some(KeyCode::F9)
    } else if str_eq(s, "F10") {
        Some(KeyCode::F10)
    } else if str_eq(s, "F11") {
        Some(KeyCode::F11)
    } else if str_eq(s, "F12") {
        Some(KeyCode::F12)
    } else if str_eq(s, "Enter") {
        Some(KeyCode::Enter)
    } else if str_eq(s, "Escape") {
        Some(KeyCode::Escape)
    } else if str_eq(s, "Backspace") {
        Some(KeyCode::Backspace)
    } else if str_eq(s, "Tab") {
        Some(KeyCode::Tab)
    } else if str_eq(s, "Space") {
        Some(KeyCode::Space)
    } else if str_eq(s, "Minus") {
        Some(KeyCode::Minus)
    } else if str_eq(s, "Equal") {
        Some(KeyCode::Equal)
    } else if str_eq(s, "BracketLeft") {
        Some(KeyCode::BracketLeft)
    } else if str_eq(s, "BracketRight") {
        Some(KeyCode::BracketRight)
    } else if str_eq(s, "Backslash") {
        Some(KeyCode::Backslash)
    } else if str_eq(s, "Semicolon") {
        Some(KeyCode::Semicolon)
    } else if str_eq(s, "Quote") {
        Some(KeyCode::Quote)
    } else if str_eq(s, "Backquote") {
        Some(KeyCode::Backquote)
    } else if str_eq(s, "Comma") {
        Some(KeyCode::Comma)
    } else if str_eq(s, "Period") {
        Some(KeyCode::Period)
    } else if str_eq(s, "Slash") {
        Some(KeyCode::Slash)
    } else if str_eq(s, "CapsLock") {
        Some(KeyCode::CapsLock)
    } else if str_eq(s, "ArrowRight") {
        Some(KeyCode::ArrowRight)
    } else if str_eq(s, "ArrowLeft") {
        Some(KeyCode::ArrowLeft)
    } else if str_eq(s, "ArrowDown") {
        Some(KeyCode::ArrowDown)
    } else if str_eq(s, "ArrowUp") {
        Some(KeyCode::ArrowUp)
    } else if str_eq(s, "ControlLeft") {
        Some(KeyCode::ControlLeft)
    } else if str_eq(s, "ShiftLeft") {
        Some(KeyCode::ShiftLeft)
    } else if str_eq(s, "AltLeft") {
        Some(KeyCode::AltLeft)
    } else if str_eq(s, "MetaLeft") {
        Some(KeyCode::MetaLeft)
    } else if str_eq(s, "ControlRight") {
        Some(KeyCode::ControlRight)
    } else if str_eq(s, "ShiftRight") {
        Some(KeyCode::ShiftRight)
    } else if str_eq(s, "AltRight") {
        Some(KeyCode::AltRight)
    } else if str_eq(s, "MetaRight") {
        Some(KeyCode::MetaRight)
    } else if str_eq(s, "PrintScreen") {
        Some(KeyCode::PrintScreen)
    } else if str_eq(s, "ScrollLock") {
        Some(KeyCode::ScrollLock)
    } else if str_eq(s, "Pause") {
        Some(KeyCode::Pause)
    } else if str_eq(s, "Insert") {
        Some(KeyCode::Insert)
    } else if str_eq(s, "Home") {
        Some(KeyCode::Home)
    } else if str_eq(s, "PageUp") {
        Some(KeyCode::PageUp)
    } else if str_eq(s, "Delete") {
        Some(KeyCode::Delete)
    } else if str_eq(s, "End") {
        Some(KeyCode::End)
    } else if str_eq(s, "PageDown") {
        Some(KeyCode::PageDown)
    } else if str_eq(s, "NumLock") {
        Some(KeyCode::NumLock)
    } else if str_eq(s, "NumpadDivide") {
        Some(KeyCode::NumpadDivide)
    } else if str_eq(s, "NumpadMultiply") {
        Some(KeyCode::NumpadMultiply)
    } else if str_eq(s, "NumpadSubtract") {
        Some(KeyCode::NumpadSubtract)
    } else if str_eq(s, "NumpadAdd") {
        Some(KeyCode::NumpadAdd)
    } else if str_eq(s, "NumpadEnter") {
        Some(KeyCode::NumpadEnter)
    } else if str_eq(s, "Numpad1") {
        Some(KeyCode::Numpad1)
    } else if str_eq(s, "Numpad2") {
        Some(KeyCode::Numpad2)
    } else if str_eq(s, "Numpad3") {
        Some(KeyCode::Numpad3)
    } else if str_eq(s, "Numpad4") {
        Some(KeyCode::Numpad4)
    } else if str_eq(s, "Numpad5") {
        Some(KeyCode::Numpad5)
    } else if str_eq(s, "Numpad6") {
        Some(KeyCode::Numpad6)
    } else if str_eq(s, "Numpad7") {
        Some(KeyCode::Numpad7)
    } else if str_eq(s, "Numpad8") {
        Some(KeyCode::Numpad8)
    } else if str_eq(s, "Numpad9") {
        Some(KeyCode::Numpad9)
    } else if str_eq(s, "Numpad0") {
        Some(KeyCode::Numpad0)
    } else if str_eq(s, "NumpadDecimal") {
        Some(KeyCode::NumpadDecimal)
    } else {
        None
    }
}

/// Whether each of the twelve bound movement keys is held this tick.
#[derive(Clone, Copy, PartialEq, Eq, Structural, Debug, Default)]
pub struct KeyStates {
    pub surge_forward: bool,
    pub surge_backward: bool,
    pub sway_left: bool,
    pub sway_right: bool,
    pub heave_up: bool,
    pub heave_down: bool,
    pub pitch_up: bool,
    pub pitch_down: bool,
    pub yaw_left: bool,
    pub yaw_right: bool,
    pub roll_left: bool,
    pub roll_right: bool,
}

/// The deflection a key pair yields: full positive when only the positive
/// key is held, full negative when only the negative one is, neutral when
/// both or neither are.
pub open spec fn key_pair_spec(positive: bool, negative: bool) -> int {
    if positive && !negative {
        AXIS_UNIT as int
    } else if !positive && negative {
        -(AXIS_UNIT as int)
    } else {
        0
    }
}

/// Turn one opposing key pair into an axis value.
pub fn process_key_pair(positive: bool, negative: bool) -> (r: i32)
    ensures
        r as int == key_pair_spec(positive, negative),
        axis_in_range(r as int),
{
    match (positive, negative) {
        (true, false) => AXIS_UNIT,
        (false, true) => -AXIS_UNIT,
        _ => 0,
    }
}

/// The keyboard half of this tick's command: each axis from its key pair,
/// always in range.
pub fn keyboard_axes(st: &KeyStates) -> (cv: CommandVector)
    ensures
        cv.surge as int == key_pair_spec(st.surge_forward, st.surge_backward),
        cv.sway as int == key_pair_spec(st.sway_right, st.sway_left),
        cv.heave as int == key_pair_spec(st.heave_up, st.heave_down),
        cv.pitch as int == key_pair_spec(st.pitch_up, st.pitch_down),
        cv.yaw as int == key_pair_spec(st.yaw_right, st.yaw_left),
        cv.roll as int == key_pair_spec(st.roll_right, st.roll_left),
        cv.in_range(),
{
    CommandVector {
        surge: process_key_pair(st.surge_forward, st.surge_backward),
        sway: process_key_pair(st.sway_right, st.sway_left),
        heave: process_key_pair(st.heave_up, st.heave_down),
        pitch: process_key_pair(st.pitch_up, st.pitch_down),
        yaw: process_key_pair(st.yaw_right, st.yaw_left),
        roll: process_key_pair(st.roll_right, st.roll_left),
    }
}

} // verus!
