use std::str::FromStr;

use keyboard_types::code::CODE_COUNT;
use keyboard_types::named_key::NAMED_KEY_COUNT;
use keyboard_types::text::{char_is_ascii, char_is_control, str_eq};
use keyboard_types::{
    Code, NamedKey, UnrecognizedCodeError, UnrecognizedNamedKeyError,
};

#[test]
fn named_key_names() {
    assert_eq!(NamedKey::Unidentified.as_str(), "Unidentified");
    assert_eq!(NamedKey::Enter.as_str(), "Enter");
    assert_eq!(NamedKey::F1.as_str(), "F1");
    assert_eq!(NamedKey::F35.as_str(), "F35");
    assert_eq!(NamedKey::TV.as_str(), "TV");
    assert_eq!(NamedKey::TVAudioDescriptionMixDown.as_str(), "TVAudioDescriptionMixDown");
    assert_eq!(NamedKey::ZoomToggle.as_str(), "ZoomToggle");
}

#[test]
fn named_key_from_str_finds_the_key() {
    assert!(matches!(NamedKey::from_str("Unidentified"), Ok(NamedKey::Unidentified)));
    assert!(matches!(NamedKey::from_str("Enter"), Ok(NamedKey::Enter)));
    assert!(matches!(NamedKey::from_str("End"), Ok(NamedKey::End)));
    assert!(matches!(NamedKey::from_str("EndCall"), Ok(NamedKey::EndCall)));
    assert!(matches!(NamedKey::from_str("TV"), Ok(NamedKey::TV)));
    assert!(matches!(NamedKey::from_str("ZoomToggle"), Ok(NamedKey::ZoomToggle)));
}

#[test]
fn named_key_from_str_rejects_other_text() {
    assert!(matches!(NamedKey::from_str(""), Err(UnrecognizedNamedKeyError)));
    assert!(matches!(NamedKey::from_str("a"), Err(UnrecognizedNamedKeyError)));
    assert!(matches!(NamedKey::from_str("enter"), Err(UnrecognizedNamedKeyError)));
    assert!(matches!(NamedKey::from_str("Ennter"), Err(UnrecognizedNamedKeyError)));
    assert!(matches!(NamedKey::from_str("Ente"), Err(UnrecognizedNamedKeyError)));
    assert!(matches!(NamedKey::from_str("Enter\0"), Err(UnrecognizedNamedKeyError)));
    assert!(matches!(NamedKey::from_str("KeyA"), Err(UnrecognizedNamedKeyError)));
}

#[test]
fn named_key_parses_through_the_trait() {
    let key: NamedKey = "Escape".parse().unwrap();
    assert_eq!(key, NamedKey::Escape);
    assert!("Esc".parse::<NamedKey>().is_err());
    assert!(<NamedKey as FromStr>::from_str("F36").is_err());
}

#[test]
fn function_keys_round_trip() {
    let keys = [
        NamedKey::F1, NamedKey::F2, NamedKey::F3, NamedKey::F4, NamedKey::F5, NamedKey::F6,
        NamedKey::F7, NamedKey::F8, NamedKey::F9, NamedKey::F10, NamedKey::F11, NamedKey::F12,
    ];
    for (i, key) in keys.iter().enumerate() {
        assert_eq!(key.as_str(), format!("F{}", i + 1));
        assert_eq!(NamedKey::from_str(key.as_str()).unwrap(), *key);
    }
}

#[test]
fn named_key_names_round_trip() {
    let keys = [
        NamedKey::Unidentified, NamedKey::Alt, NamedKey::AltGraph, NamedKey::Super,
        NamedKey::Enter, NamedKey::Tab, NamedKey::ArrowDown, NamedKey::PageUp,
        NamedKey::Backspace, NamedKey::Undo, NamedKey::Accept, NamedKey::ZoomOut,
        NamedKey::BrightnessDown, NamedKey::WakeUp, NamedKey::AllCandidates,
        NamedKey::SingleCandidate, NamedKey::HangulMode, NamedKey::JunjaMode, NamedKey::Eisu,
        NamedKey::ZenkakuHankaku, NamedKey::F1, NamedKey::F35, NamedKey::Soft4,
        NamedKey::ChannelDown, NamedKey::SpellCheck, NamedKey::Key11, NamedKey::Key12,
        NamedKey::AudioBalanceLeft, NamedKey::MicrophoneVolumeMute,
        NamedKey::SpeechCorrectionList, NamedKey::SpeechInputToggle,
        NamedKey::LaunchApplication1, NamedKey::LaunchWordProcessor, NamedKey::BrowserBack,
        NamedKey::BrowserStop, NamedKey::AppSwitch, NamedKey::VoiceDial, NamedKey::TV,
        NamedKey::TVTimer, NamedKey::AVRInput, NamedKey::ZoomToggle,
    ];
    for key in keys {
        let name = key.as_str();
        assert_eq!(format!("{:?}", key), name);
        assert_eq!(NamedKey::from_str(name).unwrap(), key);
    }
}

#[test]
fn the_last_named_key_is_reached() {
    assert_eq!(NAMED_KEY_COUNT, 307);
    assert_eq!(NamedKey::from_str("ZoomToggle").unwrap(), NamedKey::ZoomToggle);
    assert_eq!(NamedKey::from_str("Wink").unwrap(), NamedKey::Wink);
}

#[test]
fn code_names() {
    assert_eq!(Code::Unidentified.as_str(), "Unidentified");
    assert_eq!(Code::KeyA.as_str(), "KeyA");
    assert_eq!(Code::Digit0.as_str(), "Digit0");
    assert_eq!(Code::NumpadMemorySubtract.as_str(), "NumpadMemorySubtract");
    assert_eq!(Code::Katakana.as_str(), "Katakana");
}

#[test]
fn code_from_str_finds_the_code() {
    assert!(matches!(Code::from_str("Unidentified"), Ok(Code::Unidentified)));
    assert!(matches!(Code::from_str("KeyA"), Ok(Code::KeyA)));
    assert!(matches!(Code::from_str("KeyZ"), Ok(Code::KeyZ)));
    assert!(matches!(Code::from_str("Space"), Ok(Code::Space)));
    assert!(matches!(Code::from_str("Numpad0"), Ok(Code::Numpad0)));
    assert!(matches!(Code::from_str("Katakana"), Ok(Code::Katakana)));
}

#[test]
fn code_from_str_rejects_other_text() {
    assert!(matches!(Code::from_str(""), Err(UnrecognizedCodeError)));
    assert!(matches!(Code::from_str("A"), Err(UnrecognizedCodeError)));
    assert!(matches!(Code::from_str("keya"), Err(UnrecognizedCodeError)));
    assert!(matches!(Code::from_str("KeyAA"), Err(UnrecognizedCodeError)));
    assert!(matches!(Code::from_str("Shift"), Err(UnrecognizedCodeError)));
}

#[test]
fn code_names_round_trip() {
    let codes = [
        Code::Unidentified, Code::Backquote, Code::Digit9, Code::KeyQ, Code::Slash,
        Code::AltLeft, Code::Tab, Code::Convert, Code::NonConvert, Code::Delete, Code::PageUp,
        Code::ArrowDown, Code::ArrowUp, Code::NumLock, Code::Numpad9, Code::NumpadSubtract,
        Code::Escape, Code::F1, Code::F35, Code::Pause, Code::BrowserBack, Code::WakeUp,
        Code::Hyper, Code::Katakana,
    ];
    assert_eq!(CODE_COUNT, 195);
    for code in codes {
        let name = code.as_str();
        assert_eq!(format!("{:?}", code), name);
        assert_eq!(Code::from_str(name).unwrap(), code);
        let parsed: Code = name.parse().unwrap();
        assert_eq!(parsed, code);
    }
}

#[test]
fn default_code_is_unidentified() {
    assert_eq!(Code::default(), Code::Unidentified);
}

#[test]
fn str_eq_compares_contents() {
    assert!(str_eq("", ""));
    assert!(str_eq("Enter", "Enter"));
    assert!(str_eq("e\u{301}", "e\u{301}"));
    assert!(!str_eq("Enter", "Ente"));
    assert!(!str_eq("Enter", "Entes"));
    assert!(!str_eq("", "a"));
    assert!(!str_eq("é", "e\u{301}"));
}

#[test]
fn control_codes_are_those_of_std() {
    let mut code: u32 = 0;
    while code <= 0x10ffff {
        if let Some(c) = char::from_u32(code) {
            assert_eq!(char_is_control(c), c.is_control(), "U+{:04X}", code);
            assert_eq!(char_is_ascii(c), c.is_ascii(), "U+{:04X}", code);
        }
        code += 1;
    }
}
