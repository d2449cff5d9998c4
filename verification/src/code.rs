//! Physical key positions, each with its canonical name.

use vstd::prelude::*;

use crate::text::str_eq;

verus! {

/// The number of codes.
pub const CODE_COUNT: usize = 195;

/// The physical position of a key, whatever the keyboard layout makes of it.
///
/// The variants and their names are the code attribute values of the UI Events
/// standard of the W3C.
#[derive(Copy, Clone, Debug, Eq, Hash, PartialEq, PartialOrd, Ord, Structural)]
pub enum Code {
    // Special.
    Unidentified,

    // Writing system keys.
    Backquote,
    Backslash,
    BracketLeft,
    BracketRight,
    Comma,
    Digit0,
    Digit1,
    Digit2,
    Digit3,
    Digit4,
    Digit5,
    Digit6,
    Digit7,
    Digit8,
    Digit9,
    Equal,
    IntlBackslash,
    IntlRo,
    IntlYen,
    KeyA,
    KeyB,
    KeyC,
    KeyD,
    KeyE,
    KeyF,
    KeyG,
    KeyH,
    KeyI,
    KeyJ,
    KeyK,
    KeyL,
    KeyM,
    KeyN,
    KeyO,
    KeyP,
    KeyQ,
    KeyR,
    KeyS,
    KeyT,
    KeyU,
    KeyV,
    KeyW,
    KeyX,
    KeyY,
    KeyZ,
    Minus,
    Period,
    Quote,
    Semicolon,
    Slash,

    // Functional keys.
    AltLeft,
    AltRight,
    Backspace,
    CapsLock,
    ContextMenu,
    ControlLeft,
    ControlRight,
    Enter,
    MetaLeft,
    MetaRight,
    ShiftLeft,
    ShiftRight,
    Space,
    Tab,

    // Keys of Japanese and Korean keyboards.
    Convert,
    KanaMode,
    Lang1,
    Lang2,
    Lang3,
    Lang4,
    Lang5,
    NonConvert,

    // Control pad.
    Delete,
    End,
    Help,
    Home,
    Insert,
    PageDown,
    PageUp,

    // Arrow pad.
    ArrowDown,
    ArrowLeft,
    ArrowRight,
    ArrowUp,

    // Numpad.
    NumLock,
    Numpad0,
    Numpad1,
    Numpad2,
    Numpad3,
    Numpad4,
    Numpad5,
    Numpad6,
    Numpad7,
    Numpad8,
    Numpad9,
    NumpadAdd,
    NumpadBackspace,
    NumpadClear,
    NumpadClearEntry,
    NumpadComma,
    NumpadDecimal,
    NumpadDivide,
    NumpadEnter,
    NumpadEqual,
    NumpadHash,
    NumpadMemoryAdd,
    NumpadMemoryClear,
    NumpadMemoryRecall,
    NumpadMemoryStore,
    NumpadMemorySubtract,
    NumpadMultiply,
    NumpadParenLeft,
    NumpadParenRight,
    NumpadStar,
    NumpadSubtract,

    // Function section.
    Escape,
    F1,
    F2,
    F3,
    F4,
    F5,
    F6,
    F7,
    F8,
    F9,
    F10,
    F11,
    F12,
    F13,
    F14,
    F15,
    F16,
    F17,
    F18,
    F19,
    F20,
    F21,
    F22,
    F23,
    F24,
    F25,
    F26,
    F27,
    F28,
    F29,
    F30,
    F31,
    F32,
    F33,
    F34,
    F35,
    Fn,
    FnLock,
    PrintScreen,
    ScrollLock,
    Pause,

    // Media keys.
    BrowserBack,
    BrowserFavorites,
    BrowserForward,
    BrowserHome,
    BrowserRefresh,
    BrowserSearch,
    BrowserStop,
    Eject,
    LaunchApp1,
    LaunchApp2,
    LaunchMail,
    MediaPlayPause,
    MediaSelect,
    MediaStop,
    MediaTrackNext,
    MediaTrackPrevious,
    Power,
    Sleep,
    AudioVolumeDown,
    AudioVolumeMute,
    AudioVolumeUp,
    WakeUp,

    // Legacy and non-standard keys.
    Hyper,
    Super,
    Turbo,
    Abort,
    Resume,
    Suspend,
    Again,
    Copy,
    Cut,
    Find,
    Open,
    Paste,
    Props,
    Select,
    Undo,
    Hiragana,
    Katakana,
}

/// Parse error, returned when a string is the name of no [`Code`].
#[derive(Clone, Debug)]
pub struct UnrecognizedCodeError;

impl Code {
    /// The canonical name of the code, as a sequence of characters.
    pub open spec fn text(self) -> Seq<char> {
        match self {
            Code::Unidentified => "Unidentified"@,
            Code::Backquote => "Backquote"@,
            Code::Backslash => "Backslash"@,
            Code::BracketLeft => "BracketLeft"@,
            Code::BracketRight => "BracketRight"@,
            Code::Comma => "Comma"@,
            Code::Digit0 => "Digit0"@,
            Code::Digit1 => "Digit1"@,
            Code::Digit2 => "Digit2"@,
            Code::Digit3 => "Digit3"@,
            Code::Digit4 => "Digit4"@,
            Code::Digit5 => "Digit5"@,
            Code::Digit6 => "Digit6"@,
            Code::Digit7 => "Digit7"@,
            Code::Digit8 => "Digit8"@,
            Code::Digit9 => "Digit9"@,
            Code::Equal => "Equal"@,
            Code::IntlBackslash => "IntlBackslash"@,
            Code::IntlRo => "IntlRo"@,
            Code::IntlYen => "IntlYen"@,
            Code::KeyA => "KeyA"@,
            Code::KeyB => "KeyB"@,
            Code::KeyC => "KeyC"@,
            Code::KeyD => "KeyD"@,
            Code::KeyE => "KeyE"@,
            Code::KeyF => "KeyF"@,
            Code::KeyG => "KeyG"@,
            Code::KeyH => "KeyH"@,
            Code::KeyI => "KeyI"@,
            Code::KeyJ => "KeyJ"@,
            Code::KeyK => "KeyK"@,
            Code::KeyL => "KeyL"@,
            Code::KeyM => "KeyM"@,
            Code::KeyN => "KeyN"@,
            Code::KeyO => "KeyO"@,
            Code::KeyP => "KeyP"@,
            Code::KeyQ => "KeyQ"@,
            Code::KeyR => "KeyR"@,
            Code::KeyS => "KeyS"@,
            Code::KeyT => "KeyT"@,
            Code::KeyU => "KeyU"@,
            Code::KeyV => "KeyV"@,
            Code::KeyW => "KeyW"@,
            Code::KeyX => "KeyX"@,
            Code::KeyY => "KeyY"@,
            Code::KeyZ => "KeyZ"@,
            Code::Minus => "Minus"@,
            Code::Period => "Period"@,
            Code::Quote => "Quote"@,
            Code::Semicolon => "Semicolon"@,
            Code::Slash => "Slash"@,
            Code::AltLeft => "AltLeft"@,
            Code::AltRight => "AltRight"@,
            Code::Backspace => "Backspace"@,
            Code::CapsLock => "CapsLock"@,
            Code::ContextMenu => "ContextMenu"@,
            Code::ControlLeft => "ControlLeft"@,
            Code::ControlRight => "ControlRight"@,
            Code::Enter => "Enter"@,
            Code::MetaLeft => "MetaLeft"@,
            Code::MetaRight => "MetaRight"@,
            Code::ShiftLeft => "ShiftLeft"@,
            Code::ShiftRight => "ShiftRight"@,
            Code::Space => "Space"@,
            Code::Tab => "Tab"@,
            Code::Convert => "Convert"@,
            Code::KanaMode => "KanaMode"@,
            Code::Lang1 => "Lang1"@,
            Code::Lang2 => "Lang2"@,
            Code::Lang3 => "Lang3"@,
            Code::Lang4 => "Lang4"@,
            Code::Lang5 => "Lang5"@,
            Code::NonConvert => "NonConvert"@,
            Code::Delete => "Delete"@,
            Code::End => "End"@,
            Code::Help => "Help"@,
            Code::Home => "Home"@,
            Code::Insert => "Insert"@,
            Code::PageDown => "PageDown"@,
            Code::PageUp => "PageUp"@,
            Code::ArrowDown => "ArrowDown"@,
            Code::ArrowLeft => "ArrowLeft"@,
            Code::ArrowRight => "ArrowRight"@,
            Code::ArrowUp => "ArrowUp"@,
            Code::NumLock => "NumLock"@,
            Code::Numpad0 => "Numpad0"@,
            Code::Numpad1 => "Numpad1"@,
            Code::Numpad2 => "Numpad2"@,
            Code::Numpad3 => "Numpad3"@,
            Code::Numpad4 => "Numpad4"@,
            Code::Numpad5 => "Numpad5"@,
            Code::Numpad6 => "Numpad6"@,
            Code::Numpad7 => "Numpad7"@,
            Code::Numpad8 => "Numpad8"@,
            Code::Numpad9 => "Numpad9"@,
            Code::NumpadAdd => "NumpadAdd"@,
            Code::NumpadBackspace => "NumpadBackspace"@,
            Code::NumpadClear => "NumpadClear"@,
            Code::NumpadClearEntry => "NumpadClearEntry"@,
            Code::NumpadComma => "NumpadComma"@,
            Code::NumpadDecimal => "NumpadDecimal"@,
            Code::NumpadDivide => "NumpadDivide"@,
            Code::NumpadEnter => "NumpadEnter"@,
            Code::NumpadEqual => "NumpadEqual"@,
            Code::NumpadHash => "NumpadHash"@,
            Code::NumpadMemoryAdd => "NumpadMemoryAdd"@,
            Code::NumpadMemoryClear => "NumpadMemoryClear"@,
            Code::NumpadMemoryRecall => "NumpadMemoryRecall"@,
            Code::NumpadMemoryStore => "NumpadMemoryStore"@,
            Code::NumpadMemorySubtract => "NumpadMemorySubtract"@,
            Code::NumpadMultiply => "NumpadMultiply"@,
            Code::NumpadParenLeft => "NumpadParenLeft"@,
            Code::NumpadParenRight => "NumpadParenRight"@,
            Code::NumpadStar => "NumpadStar"@,
            Code::NumpadSubtract => "NumpadSubtract"@,
            Code::Escape => "Escape"@,
            Code::F1 => "F1"@,
            Code::F2 => "F2"@,
            Code::F3 => "F3"@,
            Code::F4 => "F4"@,
            Code::F5 => "F5"@,
            Code::F6 => "F6"@,
            Code::F7 => "F7"@,
            Code::F8 => "F8"@,
            Code::F9 => "F9"@,
            Code::F10 => "F10"@,
            Code::F11 => "F11"@,
            Code::F12 => "F12"@,
            Code::F13 => "F13"@,
            Code::F14 => "F14"@,
            Code::F15 => "F15"@,
            Code::F16 => "F16"@,
            Code::F17 => "F17"@,
            Code::F18 => "F18"@,
            Code::F19 => "F19"@,
            Code::F20 => "F20"@,
            Code::F21 => "F21"@,
            Code::F22 => "F22"@,
            Code::F23 => "F23"@,
            Code::F24 => "F24"@,
            Code::F25 => "F25"@,
            Code::F26 => "F26"@,
            Code::F27 => "F27"@,
            Code::F28 => "F28"@,
            Code::F29 => "F29"@,
            Code::F30 => "F30"@,
            Code::F31 => "F31"@,
            Code::F32 => "F32"@,
            Code::F33 => "F33"@,
            Code::F34 => "F34"@,
            Code::F35 => "F35"@,
            Code::Fn => "Fn"@,
            Code::FnLock => "FnLock"@,
            Code::PrintScreen => "PrintScreen"@,
            Code::ScrollLock => "ScrollLock"@,
            Code::Pause => "Pause"@,
            Code::BrowserBack => "BrowserBack"@,
            Code::BrowserFavorites => "BrowserFavorites"@,
            Code::BrowserForward => "BrowserForward"@,
            Code::BrowserHome => "BrowserHome"@,
            Code::BrowserRefresh => "BrowserRefresh"@,
            Code::BrowserSearch => "BrowserSearch"@,
            Code::BrowserStop => "BrowserStop"@,
            Code::Eject => "Eject"@,
            Code::LaunchApp1 => "LaunchApp1"@,
            Code::LaunchApp2 => "LaunchApp2"@,
            Code::LaunchMail => "LaunchMail"@,
            Code::MediaPlayPause => "MediaPlayPause"@,
            Code::MediaSelect => "MediaSelect"@,
            Code::MediaStop => "MediaStop"@,
            Code::MediaTrackNext => "MediaTrackNext"@,
            Code::MediaTrackPrevious => "MediaTrackPrevious"@,
            Code::Power => "Power"@,
            Code::Sleep => "Sleep"@,
            Code::AudioVolumeDown => "AudioVolumeDown"@,
            Code::AudioVolumeMute => "AudioVolumeMute"@,
            Code::AudioVolumeUp => "AudioVolumeUp"@,
            Code::WakeUp => "WakeUp"@,
            Code::Hyper => "Hyper"@,
            Code::Super => "Super"@,
            Code::Turbo => "Turbo"@,
            Code::Abort => "Abort"@,
            Code::Resume => "Resume"@,
            Code::Suspend => "Suspend"@,
            Code::Again => "Again"@,
            Code::Copy => "Copy"@,
            Code::Cut => "Cut"@,
            Code::Find => "Find"@,
            Code::Open => "Open"@,
            Code::Paste => "Paste"@,
            Code::Props => "Props"@,
            Code::Select => "Select"@,
            Code::Undo => "Undo"@,
            Code::Hiragana => "Hiragana"@,
            Code::Katakana => "Katakana"@,
        }
    }

    /// The code that `text` names, if it names one.
    pub open spec fn named(text: Seq<char>) -> Option<Code> {
        if exists|key: Code| key.text() == text {
            Some(choose|key: Code| key.text() == text)
        } else {
            None
        }
    }

    /// The position of the code in the declaration order, starting at zero.
    pub closed spec fn ordinal(self) -> nat {
        match self {
            Code::Unidentified => 0,
            Code::Backquote => 1,
            Code::Backslash => 2,
            Code::BracketLeft => 3,
            Code::BracketRight => 4,
            Code::Comma => 5,
            Code::Digit0 => 6,
            Code::Digit1 => 7,
            Code::Digit2 => 8,
            Code::Digit3 => 9,
            Code::Digit4 => 10,
            Code::Digit5 => 11,
            Code::Digit6 => 12,
            Code::Digit7 => 13,
            Code::Digit8 => 14,
            Code::Digit9 => 15,
            Code::Equal => 16,
            Code::IntlBackslash => 17,
            Code::IntlRo => 18,
            Code::IntlYen => 19,
            Code::KeyA => 20,
            Code::KeyB => 21,
            Code::KeyC => 22,
            Code::KeyD => 23,
            Code::KeyE => 24,
            Code::KeyF => 25,
            Code::KeyG => 26,
            Code::KeyH => 27,
            Code::KeyI => 28,
            Code::KeyJ => 29,
            Code::KeyK => 30,
            Code::KeyL => 31,
            Code::KeyM => 32,
            Code::KeyN => 33,
            Code::KeyO => 34,
            Code::KeyP => 35,
            Code::KeyQ => 36,
            Code::KeyR => 37,
            Code::KeyS => 38,
            Code::KeyT => 39,
            Code::KeyU => 40,
            Code::KeyV => 41,
            Code::KeyW => 42,
            Code::KeyX => 43,
            Code::KeyY => 44,
            Code::KeyZ => 45,
            Code::Minus => 46,
            Code::Period => 47,
            Code::Quote => 48,
            Code::Semicolon => 49,
            Code::Slash => 50,
            Code::AltLeft => 51,
            Code::AltRight => 52,
            Code::Backspace => 53,
            Code::CapsLock => 54,
            Code::ContextMenu => 55,
            Code::ControlLeft => 56,
            Code::ControlRight => 57,
            Code::Enter => 58,
            Code::MetaLeft => 59,
            Code::MetaRight => 60,
            Code::ShiftLeft => 61,
            Code::ShiftRight => 62,
            Code::Space => 63,
            Code::Tab => 64,
            Code::Convert => 65,
            Code::KanaMode => 66,
            Code::Lang1 => 67,
            Code::Lang2 => 68,
            Code::Lang3 => 69,
            Code::Lang4 => 70,
            Code::Lang5 => 71,
            Code::NonConvert => 72,
            Code::Delete => 73,
            Code::End => 74,
            Code::Help => 75,
            Code::Home => 76,
            Code::Insert => 77,
            Code::PageDown => 78,
            Code::PageUp => 79,
            Code::ArrowDown => 80,
            Code::ArrowLeft => 81,
            Code::ArrowRight => 82,
            Code::ArrowUp => 83,
            Code::NumLock => 84,
            Code::Numpad0 => 85,
            Code::Numpad1 => 86,
            Code::Numpad2 => 87,
            Code::Numpad3 => 88,
            Code::Numpad4 => 89,
            Code::Numpad5 => 90,
            Code::Numpad6 => 91,
            Code::Numpad7 => 92,
            Code::Numpad8 => 93,
            Code::Numpad9 => 94,
            Code::NumpadAdd => 95,
            Code::NumpadBackspace => 96,
            Code::NumpadClear => 97,
            Code::NumpadClearEntry => 98,
            Code::NumpadComma => 99,
            Code::NumpadDecimal => 100,
            Code::NumpadDivide => 101,
            Code::NumpadEnter => 102,
            Code::NumpadEqual => 103,
            Code::NumpadHash => 104,
            Code::NumpadMemoryAdd => 105,
            Code::NumpadMemoryClear => 106,
            Code::NumpadMemoryRecall => 107,
            Code::NumpadMemoryStore => 108,
            Code::NumpadMemorySubtract => 109,
            Code::NumpadMultiply => 110,
            Code::NumpadParenLeft => 111,
            Code::NumpadParenRight => 112,
            Code::NumpadStar => 113,
            Code::NumpadSubtract => 114,
            Code::Escape => 115,
            Code::F1 => 116,
            Code::F2 => 117,
            Code::F3 => 118,
            Code::F4 => 119,
            Code::F5 => 120,
            Code::F6 => 121,
            Code::F7 => 122,
            Code::F8 => 123,
            Code::F9 => 124,
            Code::F10 => 125,
            Code::F11 => 126,
            Code::F12 => 127,
            Code::F13 => 128,
            Code::F14 => 129,
            Code::F15 => 130,
            Code::F16 => 131,
            Code::F17 => 132,
            Code::F18 => 133,
            Code::F19 => 134,
            Code::F20 => 135,
            Code::F21 => 136,
            Code::F22 => 137,
            Code::F23 => 138,
            Code::F24 => 139,
            Code::F25 => 140,
            Code::F26 => 141,
            Code::F27 => 142,
            Code::F28 => 143,
            Code::F29 => 144,
            Code::F30 => 145,
            Code::F31 => 146,
            Code::F32 => 147,
            Code::F33 => 148,
            Code::F34 => 149,
            Code::F35 => 150,
            Code::Fn => 151,
            Code::FnLock => 152,
            Code::PrintScreen => 153,
            Code::ScrollLock => 154,
            Code::Pause => 155,
            Code::BrowserBack => 156,
            Code::BrowserFavorites => 157,
            Code::BrowserForward => 158,
            Code::BrowserHome => 159,
            Code::BrowserRefresh => 160,
            Code::BrowserSearch => 161,
            Code::BrowserStop => 162,
            Code::Eject => 163,
            Code::LaunchApp1 => 164,
            Code::LaunchApp2 => 165,
            Code::LaunchMail => 166,
            Code::MediaPlayPause => 167,
            Code::MediaSelect => 168,
            Code::MediaStop => 169,
            Code::MediaTrackNext => 170,
            Code::MediaTrackPrevious => 171,
            Code::Power => 172,
            Code::Sleep => 173,
            Code::AudioVolumeDown => 174,
            Code::AudioVolumeMute => 175,
            Code::AudioVolumeUp => 176,
            Code::WakeUp => 177,
            Code::Hyper => 178,
            Code::Super => 179,
            Code::Turbo => 180,
            Code::Abort => 181,
            Code::Resume => 182,
            Code::Suspend => 183,
            Code::Again => 184,
            Code::Copy => 185,
            Code::Cut => 186,
            Code::Find => 187,
            Code::Open => 188,
            Code::Paste => 189,
            Code::Props => 190,
            Code::Select => 191,
            Code::Undo => 192,
            Code::Hiragana => 193,
            Code::Katakana => 194,
        }
    }

    /// The canonical name of the code.
    pub fn as_str(self) -> (name: &'static str)
        ensures
            name@ == self.text(),
    {
        match self {
            Code::Unidentified => "Unidentified",
            Code::Backquote => "Backquote",
            Code::Backslash => "Backslash",
            Code::BracketLeft => "BracketLeft",
            Code::BracketRight => "BracketRight",
            Code::Comma => "Comma",
            Code::Digit0 => "Digit0",
            Code::Digit1 => "Digit1",
            Code::Digit2 => "Digit2",
            Code::Digit3 => "Digit3",
            Code::Digit4 => "Digit4",
            Code::Digit5 => "Digit5",
            Code::Digit6 => "Digit6",
            Code::Digit7 => "Digit7",
            Code::Digit8 => "Digit8",
            Code::Digit9 => "Digit9",
            Code::Equal => "Equal",
            Code::IntlBackslash => "IntlBackslash",
            Code::IntlRo => "IntlRo",
            Code::IntlYen => "IntlYen",
            Code::KeyA => "KeyA",
            Code::KeyB => "KeyB",
            Code::KeyC => "KeyC",
            Code::KeyD => "KeyD",
            Code::KeyE => "KeyE",
            Code::KeyF => "KeyF",
            Code::KeyG => "KeyG",
            Code::KeyH => "KeyH",
            Code::KeyI => "KeyI",
            Code::KeyJ => "KeyJ",
            Code::KeyK => "KeyK",
            Code::KeyL => "KeyL",
            Code::KeyM => "KeyM",
            Code::KeyN => "KeyN",
            Code::KeyO => "KeyO",
            Code::KeyP => "KeyP",
            Code::KeyQ => "KeyQ",
            Code::KeyR => "KeyR",
            Code::KeyS => "KeyS",
            Code::KeyT => "KeyT",
            Code::KeyU => "KeyU",
            Code::KeyV => "KeyV",
            Code::KeyW => "KeyW",
            Code::KeyX => "KeyX",
            Code::KeyY => "KeyY",
            Code::KeyZ => "KeyZ",
            Code::Minus => "Minus",
            Code::Period => "Period",
            Code::Quote => "Quote",
            Code::Semicolon => "Semicolon",
            Code::Slash => "Slash",
            Code::AltLeft => "AltLeft",
            Code::AltRight => "AltRight",
            Code::Backspace => "Backspace",
            Code::CapsLock => "CapsLock",
            Code::ContextMenu => "ContextMenu",
            Code::ControlLeft => "ControlLeft",
            Code::ControlRight => "ControlRight",
            Code::Enter => "Enter",
            Code::MetaLeft => "MetaLeft",
            Code::MetaRight => "MetaRight",
            Code::ShiftLeft => "ShiftLeft",
            Code::ShiftRight => "ShiftRight",
            Code::Space => "Space",
            Code::Tab => "Tab",
            Code::Convert => "Convert",
            Code::KanaMode => "KanaMode",
            Code::Lang1 => "Lang1",
            Code::Lang2 => "Lang2",
            Code::Lang3 => "Lang3",
            Code::Lang4 => "Lang4",
            Code::Lang5 => "Lang5",
            Code::NonConvert => "NonConvert",
            Code::Delete => "Delete",
            Code::End => "End",
            Code::Help => "Help",
            Code::Home => "Home",
            Code::Insert => "Insert",
            Code::PageDown => "PageDown",
            Code::PageUp => "PageUp",
            Code::ArrowDown => "ArrowDown",
            Code::ArrowLeft => "ArrowLeft",
            Code::ArrowRight => "ArrowRight",
            Code::ArrowUp => "ArrowUp",
            Code::NumLock => "NumLock",
            Code::Numpad0 => "Numpad0",
            Code::Numpad1 => "Numpad1",
            Code::Numpad2 => "Numpad2",
            Code::Numpad3 => "Numpad3",
            Code::Numpad4 => "Numpad4",
            Code::Numpad5 => "Numpad5",
            Code::Numpad6 => "Numpad6",
            Code::Numpad7 => "Numpad7",
            Code::Numpad8 => "Numpad8",
            Code::Numpad9 => "Numpad9",
            Code::NumpadAdd => "NumpadAdd",
            Code::NumpadBackspace => "NumpadBackspace",
            Code::NumpadClear => "NumpadClear",
            Code::NumpadClearEntry => "NumpadClearEntry",
            Code::NumpadComma => "NumpadComma",
            Code::NumpadDecimal => "NumpadDecimal",
            Code::NumpadDivide => "NumpadDivide",
            Code::NumpadEnter => "NumpadEnter",
            Code::NumpadEqual => "NumpadEqual",
            Code::NumpadHash => "NumpadHash",
            Code::NumpadMemoryAdd => "NumpadMemoryAdd",
            Code::NumpadMemoryClear => "NumpadMemoryClear",
            Code::NumpadMemoryRecall => "NumpadMemoryRecall",
            Code::NumpadMemoryStore => "NumpadMemoryStore",
            Code::NumpadMemorySubtract => "NumpadMemorySubtract",
            Code::NumpadMultiply => "NumpadMultiply",
            Code::NumpadParenLeft => "NumpadParenLeft",
            Code::NumpadParenRight => "NumpadParenRight",
            Code::NumpadStar => "NumpadStar",
            Code::NumpadSubtract => "NumpadSubtract",
            Code::Escape => "Escape",
            Code::F1 => "F1",
            Code::F2 => "F2",
            Code::F3 => "F3",
            Code::F4 => "F4",
            Code::F5 => "F5",
            Code::F6 => "F6",
            Code::F7 => "F7",
            Code::F8 => "F8",
            Code::F9 => "F9",
            Code::F10 => "F10",
            Code::F11 => "F11",
            Code::F12 => "F12",
            Code::F13 => "F13",
            Code::F14 => "F14",
            Code::F15 => "F15",
            Code::F16 => "F16",
            Code::F17 => "F17",
            Code::F18 => "F18",
            Code::F19 => "F19",
            Code::F20 => "F20",
            Code::F21 => "F21",
            Code::F22 => "F22",
            Code::F23 => "F23",
            Code::F24 => "F24",
            Code::F25 => "F25",
            Code::F26 => "F26",
            Code::F27 => "F27",
            Code::F28 => "F28",
            Code::F29 => "F29",
            Code::F30 => "F30",
            Code::F31 => "F31",
            Code::F32 => "F32",
            Code::F33 => "F33",
            Code::F34 => "F34",
            Code::F35 => "F35",
            Code::Fn => "Fn",
            Code::FnLock => "FnLock",
            Code::PrintScreen => "PrintScreen",
            Code::ScrollLock => "ScrollLock",
            Code::Pause => "Pause",
            Code::BrowserBack => "BrowserBack",
            Code::BrowserFavorites => "BrowserFavorites",
            Code::BrowserForward => "BrowserForward",
            Code::BrowserHome => "BrowserHome",
            Code::BrowserRefresh => "BrowserRefresh",
            Code::BrowserSearch => "BrowserSearch",
            Code::BrowserStop => "BrowserStop",
            Code::Eject => "Eject",
            Code::LaunchApp1 => "LaunchApp1",
            Code::LaunchApp2 => "LaunchApp2",
            Code::LaunchMail => "LaunchMail",
            Code::MediaPlayPause => "MediaPlayPause",
            Code::MediaSelect => "MediaSelect",
            Code::MediaStop => "MediaStop",
            Code::MediaTrackNext => "MediaTrackNext",
            Code::MediaTrackPrevious => "MediaTrackPrevious",
            Code::Power => "Power",
            Code::Sleep => "Sleep",
            Code::AudioVolumeDown => "AudioVolumeDown",
            Code::AudioVolumeMute => "AudioVolumeMute",
            Code::AudioVolumeUp => "AudioVolumeUp",
            Code::WakeUp => "WakeUp",
            Code::Hyper => "Hyper",
            Code::Super => "Super",
            Code::Turbo => "Turbo",
            Code::Abort => "Abort",
            Code::Resume => "Resume",
            Code::Suspend => "Suspend",
            Code::Again => "Again",
            Code::Copy => "Copy",
            Code::Cut => "Cut",
            Code::Find => "Find",
            Code::Open => "Open",
            Code::Paste => "Paste",
            Code::Props => "Props",
            Code::Select => "Select",
            Code::Undo => "Undo",
            Code::Hiragana => "Hiragana",
            Code::Katakana => "Katakana",
        }
    }

    /// The code at position `index` of the declaration order.
    fn from_ordinal(index: usize) -> (key: Code)
        requires
            index < CODE_COUNT,
        ensures
            key.ordinal() == index,
    {
        match index {
            0 => Code::Unidentified,
            1 => Code::Backquote,
            2 => Code::Backslash,
            3 => Code::BracketLeft,
            4 => Code::BracketRight,
            5 => Code::Comma,
            6 => Code::Digit0,
            7 => Code::Digit1,
            8 => Code::Digit2,
            9 => Code::Digit3,
            10 => Code::Digit4,
            11 => Code::Digit5,
            12 => Code::Digit6,
            13 => Code::Digit7,
            14 => Code::Digit8,
            15 => Code::Digit9,
            16 => Code::Equal,
            17 => Code::IntlBackslash,
            18 => Code::IntlRo,
            19 => Code::IntlYen,
            20 => Code::KeyA,
            21 => Code::KeyB,
            22 => Code::KeyC,
            23 => Code::KeyD,
            24 => Code::KeyE,
            25 => Code::KeyF,
            26 => Code::KeyG,
            27 => Code::KeyH,
            28 => Code::KeyI,
            29 => Code::KeyJ,
            30 => Code::KeyK,
            31 => Code::KeyL,
            32 => Code::KeyM,
            33 => Code::KeyN,
            34 => Code::KeyO,
            35 => Code::KeyP,
            36 => Code::KeyQ,
            37 => Code::KeyR,
            38 => Code::KeyS,
            39 => Code::KeyT,
            40 => Code::KeyU,
            41 => Code::KeyV,
            42 => Code::KeyW,
            43 => Code::KeyX,
            44 => Code::KeyY,
            45 => Code::KeyZ,
            46 => Code::Minus,
            47 => Code::Period,
            48 => Code::Quote,
            49 => Code::Semicolon,
            50 => Code::Slash,
            51 => Code::AltLeft,
            52 => Code::AltRight,
            53 => Code::Backspace,
            54 => Code::CapsLock,
            55 => Code::ContextMenu,
            56 => Code::ControlLeft,
            57 => Code::ControlRight,
            58 => Code::Enter,
            59 => Code::MetaLeft,
            60 => Code::MetaRight,
            61 => Code::ShiftLeft,
            62 => Code::ShiftRight,
            63 => Code::Space,
            64 => Code::Tab,
            65 => Code::Convert,
            66 => Code::KanaMode,
            67 => Code::Lang1,
            68 => Code::Lang2,
            69 => Code::Lang3,
            70 => Code::Lang4,
            71 => Code::Lang5,
            72 => Code::NonConvert,
            73 => Code::Delete,
            74 => Code::End,
            75 => Code::Help,
            76 => Code::Home,
            77 => Code::Insert,
            78 => Code::PageDown,
            79 => Code::PageUp,
            80 => Code::ArrowDown,
            81 => Code::ArrowLeft,
            82 => Code::ArrowRight,
            83 => Code::ArrowUp,
            84 => Code::NumLock,
            85 => Code::Numpad0,
            86 => Code::Numpad1,
            87 => Code::Numpad2,
            88 => Code::Numpad3,
            89 => Code::Numpad4,
            90 => Code::Numpad5,
            91 => Code::Numpad6,
            92 => Code::Numpad7,
            93 => Code::Numpad8,
            94 => Code::Numpad9,
            95 => Code::NumpadAdd,
            96 => Code::NumpadBackspace,
            97 => Code::NumpadClear,
            98 => Code::NumpadClearEntry,
            99 => Code::NumpadComma,
            100 => Code::NumpadDecimal,
            101 => Code::NumpadDivide,
            102 => Code::NumpadEnter,
            103 => Code::NumpadEqual,
            104 => Code::NumpadHash,
            105 => Code::NumpadMemoryAdd,
            106 => Code::NumpadMemoryClear,
            107 => Code::NumpadMemoryRecall,
            108 => Code::NumpadMemoryStore,
            109 => Code::NumpadMemorySubtract,
            110 => Code::NumpadMultiply,
            111 => Code::NumpadParenLeft,
            112 => Code::NumpadParenRight,
            113 => Code::NumpadStar,
            114 => Code::NumpadSubtract,
            115 => Code::Escape,
            116 => Code::F1,
            117 => Code::F2,
            118 => Code::F3,
            119 => Code::F4,
            120 => Code::F5,
            121 => Code::F6,
            122 => Code::F7,
            123 => Code::F8,
            124 => Code::F9,
            125 => Code::F10,
            126 => Code::F11,
            127 => Code::F12,
            128 => Code::F13,
            129 => Code::F14,
            130 => Code::F15,
            131 => Code::F16,
            132 => Code::F17,
            133 => Code::F18,
            134 => Code::F19,
            135 => Code::F20,
            136 => Code::F21,
            137 => Code::F22,
            138 => Code::F23,
            139 => Code::F24,
            140 => Code::F25,
            141 => Code::F26,
            142 => Code::F27,
            143 => Code::F28,
            144 => Code::F29,
            145 => Code::F30,
            146 => Code::F31,
            147 => Code::F32,
            148 => Code::F33,
            149 => Code::F34,
            150 => Code::F35,
            151 => Code::Fn,
            152 => Code::FnLock,
            153 => Code::PrintScreen,
            154 => Code::ScrollLock,
            155 => Code::Pause,
            156 => Code::BrowserBack,
            157 => Code::BrowserFavorites,
            158 => Code::BrowserForward,
            159 => Code::BrowserHome,
            160 => Code::BrowserRefresh,
            161 => Code::BrowserSearch,
            162 => Code::BrowserStop,
            163 => Code::Eject,
            164 => Code::LaunchApp1,
            165 => Code::LaunchApp2,
            166 => Code::LaunchMail,
            167 => Code::MediaPlayPause,
            168 => Code::MediaSelect,
            169 => Code::MediaStop,
            170 => Code::MediaTrackNext,
            171 => Code::MediaTrackPrevious,
            172 => Code::Power,
            173 => Code::Sleep,
            174 => Code::AudioVolumeDown,
            175 => Code::AudioVolumeMute,
            176 => Code::AudioVolumeUp,
            177 => Code::WakeUp,
            178 => Code::Hyper,
            179 => Code::Super,
            180 => Code::Turbo,
            181 => Code::Abort,
            182 => Code::Resume,
            183 => Code::Suspend,
            184 => Code::Again,
            185 => Code::Copy,
            186 => Code::Cut,
            187 => Code::Find,
            188 => Code::Open,
            189 => Code::Paste,
            190 => Code::Props,
            191 => Code::Select,
            192 => Code::Undo,
            193 => Code::Hiragana,
            _ => Code::Katakana,
        }
    }

    /// Parses the canonical name of a code.
    ///
    /// Succeeds exactly on the names of the codes, and then returns the
    /// one that bears the name.
    pub fn from_str(s: &str) -> (parsed: Result<Code, UnrecognizedCodeError>)
        ensures
            match parsed {
                Ok(key) => key.text() == s@,
                Err(_) => forall|key: Code| key.text() != s@,
            },
            parsed.ok() == Code::named(s@),
    {
        let mut index: usize = 0;
        while index < CODE_COUNT
            invariant
                index <= CODE_COUNT,
                forall|key: Code| key.ordinal() < index ==> key.text() != s@,
            decreases CODE_COUNT - index,
        {
            let candidate = Code::from_ordinal(index);
            if str_eq(candidate.as_str(), s) {
                proof {
                    lemma_name_determines_key(candidate, Code::named(s@).unwrap());
                }
                return Ok(candidate);
            }
            proof {
                assert forall|key: Code| key.ordinal() < index + 1 implies key.text() != s@ by {
                    lemma_ordinal_determines_key(key, candidate);
                }
            }
            index += 1;
        }
        proof {
            assert forall|key: Code| key.text() != s@ by {
                lemma_ordinal_determines_key(key, key);
            }
        }
        Err(UnrecognizedCodeError)
    }
}

impl core::str::FromStr for Code {
    type Err = UnrecognizedCodeError;

    /// Parses the canonical name of a code, as [`Code::from_str`] does.
    fn from_str(s: &str) -> (parsed: Result<Code, UnrecognizedCodeError>)
        ensures
            match parsed {
                Ok(key) => key.text() == s@,
                Err(_) => forall|key: Code| key.text() != s@,
            },
            parsed.ok() == Code::named(s@),
    {
        Code::from_str(s)
    }
}

/// Every code has a position below their number, and no two share a
/// position.
proof fn lemma_ordinal_determines_key(a: Code, b: Code)
    ensures
        a.ordinal() < CODE_COUNT,
        a.ordinal() == b.ordinal() ==> a == b,
{
}

/// No two codes share a name.
pub proof fn lemma_name_determines_key(a: Code, b: Code)
    requires
        a.text() == b.text(),
    ensures
        a == b,
{
    reveal_strlit("Unidentified");
    reveal_strlit("Backquote");
    reveal_strlit("Backslash");
    reveal_strlit("BracketLeft");
    reveal_strlit("BracketRight");
    reveal_strlit("Comma");
    reveal_strlit("Digit0");
    reveal_strlit("Digit1");
    reveal_strlit("Digit2");
    reveal_strlit("Digit3");
    reveal_strlit("Digit4");
    reveal_strlit("Digit5");
    reveal_strlit("Digit6");
    reveal_strlit("Digit7");
    reveal_strlit("Digit8");
    reveal_strlit("Digit9");
    reveal_strlit("Equal");
    reveal_strlit("IntlBackslash");
    reveal_strlit("IntlRo");
    reveal_strlit("IntlYen");
    reveal_strlit("KeyA");
    reveal_strlit("KeyB");
    reveal_strlit("KeyC");
    reveal_strlit("KeyD");
    reveal_strlit("KeyE");
    reveal_strlit("KeyF");
    reveal_strlit("KeyG");
    reveal_strlit("KeyH");
    reveal_strlit("KeyI");
    reveal_strlit("KeyJ");
    reveal_strlit("KeyK");
    reveal_strlit("KeyL");
    reveal_strlit("KeyM");
    reveal_strlit("KeyN");
    reveal_strlit("KeyO");
    reveal_strlit("KeyP");
    reveal_strlit("KeyQ");
    reveal_strlit("KeyR");
    reveal_strlit("KeyS");
    reveal_strlit("KeyT");
    reveal_strlit("KeyU");
    reveal_strlit("KeyV");
    reveal_strlit("KeyW");
    reveal_strlit("KeyX");
    reveal_strlit("KeyY");
    reveal_strlit("KeyZ");
    reveal_strlit("Minus");
    reveal_strlit("Period");
    reveal_strlit("Quote");
    reveal_strlit("Semicolon");
    reveal_strlit("Slash");
    reveal_strlit("AltLeft");
    reveal_strlit("AltRight");
    reveal_strlit("Backspace");
    reveal_strlit("CapsLock");
    reveal_strlit("ContextMenu");
    reveal_strlit("ControlLeft");
    reveal_strlit("ControlRight");
    reveal_strlit("Enter");
    reveal_strlit("MetaLeft");
    reveal_strlit("MetaRight");
    reveal_strlit("ShiftLeft");
    reveal_strlit("ShiftRight");
    reveal_strlit("Space");
    reveal_strlit("Tab");
    reveal_strlit("Convert");
    reveal_strlit("KanaMode");
    reveal_strlit("Lang1");
    reveal_strlit("Lang2");
    reveal_strlit("Lang3");
    reveal_strlit("Lang4");
    reveal_strlit("Lang5");
    reveal_strlit("NonConvert");
    reveal_strlit("Delete");
    reveal_strlit("End");
    reveal_strlit("Help");
    reveal_strlit("Home");
    reveal_strlit("Insert");
    reveal_strlit("PageDown");
    reveal_strlit("PageUp");
    reveal_strlit("ArrowDown");
    reveal_strlit("ArrowLeft");
    reveal_strlit("ArrowRight");
    reveal_strlit("ArrowUp");
    reveal_strlit("NumLock");
    reveal_strlit("Numpad0");
    reveal_strlit("Numpad1");
    reveal_strlit("Numpad2");
    reveal_strlit("Numpad3");
    reveal_strlit("Numpad4");
    reveal_strlit("Numpad5");
    reveal_strlit("Numpad6");
    reveal_strlit("Numpad7");
    reveal_strlit("Numpad8");
    reveal_strlit("Numpad9");
    reveal_strlit("NumpadAdd");
    reveal_strlit("NumpadBackspace");
    reveal_strlit("NumpadClear");
    reveal_strlit("NumpadClearEntry");
    reveal_strlit("NumpadComma");
    reveal_strlit("NumpadDecimal");
    reveal_strlit("NumpadDivide");
    reveal_strlit("NumpadEnter");
    reveal_strlit("NumpadEqual");
    reveal_strlit("NumpadHash");
    reveal_strlit("NumpadMemoryAdd");
    reveal_strlit("NumpadMemoryClear");
    reveal_strlit("NumpadMemoryRecall");
    reveal_strlit("NumpadMemoryStore");
    reveal_strlit("NumpadMemorySubtract");
    reveal_strlit("NumpadMultiply");
    reveal_strlit("NumpadParenLeft");
    reveal_strlit("NumpadParenRight");
    reveal_strlit("NumpadStar");
    reveal_strlit("NumpadSubtract");
    reveal_strlit("Escape");
    reveal_strlit("F1");
    reveal_strlit("F2");
    reveal_strlit("F3");
    reveal_strlit("F4");
    reveal_strlit("F5");
    reveal_strlit("F6");
    reveal_strlit("F7");
    reveal_strlit("F8");
    reveal_strlit("F9");
    reveal_strlit("F10");
    reveal_strlit("F11");
    reveal_strlit("F12");
    reveal_strlit("F13");
    reveal_strlit("F14");
    reveal_strlit("F15");
    reveal_strlit("F16");
    reveal_strlit("F17");
    reveal_strlit("F18");
    reveal_strlit("F19");
    reveal_strlit("F20");
    reveal_strlit("F21");
    reveal_strlit("F22");
    reveal_strlit("F23");
    reveal_strlit("F24");
    reveal_strlit("F25");
    reveal_strlit("F26");
    reveal_strlit("F27");
    reveal_strlit("F28");
    reveal_strlit("F29");
    reveal_strlit("F30");
    reveal_strlit("F31");
    reveal_strlit("F32");
    reveal_strlit("F33");
    reveal_strlit("F34");
    reveal_strlit("F35");
    reveal_strlit("Fn");
    reveal_strlit("FnLock");
    reveal_strlit("PrintScreen");
    reveal_strlit("ScrollLock");
    reveal_strlit("Pause");
    reveal_strlit("BrowserBack");
    reveal_strlit("BrowserFavorites");
    reveal_strlit("BrowserForward");
    reveal_strlit("BrowserHome");
    reveal_strlit("BrowserRefresh");
    reveal_strlit("BrowserSearch");
    reveal_strlit("BrowserStop");
    reveal_strlit("Eject");
    reveal_strlit("LaunchApp1");
    reveal_strlit("LaunchApp2");
    reveal_strlit("LaunchMail");
    reveal_strlit("MediaPlayPause");
    reveal_strlit("MediaSelect");
    reveal_strlit("MediaStop");
    reveal_strlit("MediaTrackNext");
    reveal_strlit("MediaTrackPrevious");
    reveal_strlit("Power");
    reveal_strlit("Sleep");
    reveal_strlit("AudioVolumeDown");
    reveal_strlit("AudioVolumeMute");
    reveal_strlit("AudioVolumeUp");
    reveal_strlit("WakeUp");
    reveal_strlit("Hyper");
    reveal_strlit("Super");
    reveal_strlit("Turbo");
    reveal_strlit("Abort");
    reveal_strlit("Resume");
    reveal_strlit("Suspend");
    reveal_strlit("Again");
    reveal_strlit("Copy");
    reveal_strlit("Cut");
    reveal_strlit("Find");
    reveal_strlit("Open");
    reveal_strlit("Paste");
    reveal_strlit("Props");
    reveal_strlit("Select");
    reveal_strlit("Undo");
    reveal_strlit("Hiragana");
    reveal_strlit("Katakana");
    // Equal names agree in length and at every position up to the
    // longest name; two different names differ in one of these.
    let x = a.text();
    let y = b.text();
    assert(x.len() == y.len());
    assert(x[0] == y[0]);
    assert(x[1] == y[1]);
    assert(x[2] == y[2]);
    assert(x[3] == y[3]);
    assert(x[4] == y[4]);
    assert(x[5] == y[5]);
    assert(x[6] == y[6]);
    assert(x[7] == y[7]);
    assert(x[8] == y[8]);
    assert(x[9] == y[9]);
    assert(x[10] == y[10]);
    assert(x[11] == y[11]);
    assert(x[12] == y[12]);
    assert(x[13] == y[13]);
    assert(x[14] == y[14]);
    assert(x[15] == y[15]);
    assert(x[16] == y[16]);
    assert(x[17] == y[17]);
    assert(x[18] == y[18]);
    assert(x[19] == y[19]);
    assert(a == b);
}

/// A code is found again by its name.
pub proof fn lemma_named_finds_key(key: Code)
    ensures
        Code::named(key.text()) == Some(key),
{
    lemma_name_determines_key(Code::named(key.text()).unwrap(), key);
}

} // verus!
