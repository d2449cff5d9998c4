use std::collections::hash_map::DefaultHasher;
use std::hash::{Hash, Hasher};
use std::str::FromStr;

use keyboard_types::{first_char, is_key_string, Key, NamedKey, UnrecognizedKeyError};

fn character(text: &str) -> Key {
    Key::Character(text.to_string())
}

fn hash_of(key: &Key) -> u64 {
    let mut hasher = DefaultHasher::new();
    key.hash(&mut hasher);
    hasher.finish()
}

#[test]
fn test_is_key_string() {
    assert!(is_key_string("A"));
    assert!(!is_key_string("AA"));
    assert!(!is_key_string("	"));
}

#[test]
fn into() {
    assert_eq!(Key::Named(NamedKey::Enter), NamedKey::Enter.into());
}

#[test]
fn key_string_accepts_empty_and_single_characters() {
    assert!(is_key_string(""));
    assert!(is_key_string("a"));
    assert!(is_key_string(" "));
    assert!(is_key_string("é"));
    assert!(is_key_string("語"));
    assert!(is_key_string("😀"));
}

#[test]
fn key_string_accepts_non_ascii_after_the_first() {
    // A letter followed by a combining acute accent.
    assert!(is_key_string("e\u{301}"));
    assert!(is_key_string("日本"));
    assert!(is_key_string("a\u{a0}"));
}

#[test]
fn key_string_rejects_ascii_after_the_first() {
    assert!(!is_key_string("Ennter"));
    assert!(!is_key_string("é1"));
    assert!(!is_key_string("e\u{301}x"));
    assert!(!is_key_string("a "));
    assert!(!is_key_string("a\u{7f}"));
}

#[test]
fn key_string_rejects_control_codes() {
    assert!(!is_key_string("\0"));
    assert!(!is_key_string("\n"));
    assert!(!is_key_string("\u{1f}"));
    assert!(!is_key_string("\u{7f}"));
    assert!(!is_key_string("\u{80}"));
    assert!(!is_key_string("\u{9f}"));
    assert!(!is_key_string("é\u{85}"));
    assert!(is_key_string("\u{20}"));
    assert!(is_key_string("\u{7e}"));
    assert!(is_key_string("\u{a0}"));
}

#[test]
fn key_string_agrees_with_std_on_every_single_character() {
    let mut code: u32 = 0;
    while code <= 0x10ffff {
        if let Some(c) = char::from_u32(code) {
            let text = c.to_string();
            assert_eq!(is_key_string(&text), !c.is_control(), "U+{:04X}", code);
        }
        code += 1;
    }
}

#[test]
fn from_str_takes_a_key_string_as_character() {
    assert_eq!(Key::from_str("a").unwrap(), character("a"));
    assert_eq!(Key::from_str("").unwrap(), character(""));
    assert_eq!(Key::from_str("é").unwrap(), character("é"));
    assert_eq!(Key::from_str("e\u{301}").unwrap(), character("e\u{301}"));
}

#[test]
fn from_str_takes_a_name_as_named_key() {
    assert_eq!(Key::from_str("Enter").unwrap(), Key::Named(NamedKey::Enter));
    assert_eq!(Key::from_str("F1").unwrap(), Key::Named(NamedKey::F1));
    assert_eq!(Key::from_str("Unidentified").unwrap(), Key::Named(NamedKey::Unidentified));
    assert_eq!(Key::from_str("ZoomToggle").unwrap(), Key::Named(NamedKey::ZoomToggle));
}

#[test]
fn from_str_rejects_what_is_neither() {
    assert!(matches!(Key::from_str("Ennter"), Err(UnrecognizedKeyError)));
    assert!(matches!(Key::from_str("AA"), Err(UnrecognizedKeyError)));
    assert!(matches!(Key::from_str("enter"), Err(UnrecognizedKeyError)));
    assert!(matches!(Key::from_str("\t"), Err(UnrecognizedKeyError)));
    assert!(matches!(Key::from_str("Enter "), Err(UnrecognizedKeyError)));
}

#[test]
fn parse_goes_through_the_trait() {
    let key: Key = "Tab".parse().unwrap();
    assert_eq!(key, Key::Named(NamedKey::Tab));
    let key: Key = "x".parse().unwrap();
    assert_eq!(key, character("x"));
    assert!("Tabb".parse::<Key>().is_err());
    assert!(<Key as FromStr>::from_str("xy").is_err());
}

#[test]
fn to_string_gives_text_or_name() {
    assert_eq!(character("a").to_string(), "a");
    assert_eq!(character("").to_string(), "");
    assert_eq!(character("e\u{301}").to_string(), "e\u{301}");
    assert_eq!(Key::Named(NamedKey::Enter).to_string(), "Enter");
    assert_eq!(Key::Named(NamedKey::TVInputHDMI1).to_string(), "TVInputHDMI1");
}

#[test]
fn display_then_parse_round_trips() {
    let texts = ["a", "Z", " ", "", "é", "e\u{301}", "Enter", "Shift", "F35", "TV", "Dead"];
    for text in texts {
        let key = Key::from_str(text).unwrap();
        assert_eq!(key.to_string(), text);
        assert_eq!(Key::from_str(&key.to_string()).unwrap(), key);
    }
}

#[test]
fn from_named_key_is_the_named_arm() {
    assert_eq!(Key::from(NamedKey::Enter), Key::Named(NamedKey::Enter));
    assert_eq!(Key::from(NamedKey::Unidentified), Key::Named(NamedKey::Unidentified));
    assert_ne!(Key::from(NamedKey::Enter), Key::from(NamedKey::Tab));
}

#[test]
fn default_key_is_unidentified() {
    assert_eq!(Key::default(), Key::Named(NamedKey::Unidentified));
    assert_eq!(NamedKey::default(), NamedKey::Unidentified);
}

#[test]
fn legacy_keycode_of_named_keys() {
    let table = [
        (NamedKey::Backspace, 8),
        (NamedKey::Tab, 9),
        (NamedKey::Enter, 13),
        (NamedKey::Shift, 16),
        (NamedKey::Control, 17),
        (NamedKey::Alt, 18),
        (NamedKey::CapsLock, 20),
        (NamedKey::Escape, 27),
        (NamedKey::PageUp, 33),
        (NamedKey::PageDown, 34),
        (NamedKey::End, 35),
        (NamedKey::Home, 36),
        (NamedKey::ArrowLeft, 37),
        (NamedKey::ArrowUp, 38),
        (NamedKey::ArrowRight, 39),
        (NamedKey::ArrowDown, 40),
        (NamedKey::Delete, 46),
    ];
    for (key, code) in table {
        assert_eq!(Key::Named(key).legacy_keycode(), code, "{:?}", key);
    }
}

#[test]
fn legacy_keycode_of_other_named_keys_is_zero() {
    assert_eq!(Key::Named(NamedKey::Unidentified).legacy_keycode(), 0);
    assert_eq!(Key::Named(NamedKey::F1).legacy_keycode(), 0);
    assert_eq!(Key::Named(NamedKey::Meta).legacy_keycode(), 0);
    assert_eq!(Key::Named(NamedKey::Insert).legacy_keycode(), 0);
    assert_eq!(Key::Named(NamedKey::ZoomToggle).legacy_keycode(), 0);
}

#[test]
fn legacy_keycode_exact_values() {
    assert_eq!(Key::Named(NamedKey::Enter).legacy_keycode(), 13);
    assert_eq!(character("a").legacy_keycode(), 65);
    assert_eq!(character("A").legacy_keycode(), 65);
    assert_eq!(character(";").legacy_keycode(), 186);
    assert_eq!(character(" ").legacy_keycode(), 32);
    assert_eq!(character("ab").legacy_keycode(), 0);
    assert_eq!(character("").legacy_keycode(), 0);
}

#[test]
fn legacy_keycode_of_digits_and_letters() {
    for (i, c) in ('0'..='9').enumerate() {
        assert_eq!(character(&c.to_string()).legacy_keycode(), 48 + i as u32);
    }
    for (i, c) in ('a'..='z').enumerate() {
        assert_eq!(character(&c.to_string()).legacy_keycode(), 65 + i as u32);
    }
    for (i, c) in ('A'..='Z').enumerate() {
        assert_eq!(character(&c.to_string()).legacy_keycode(), 65 + i as u32);
    }
}

#[test]
fn legacy_keycode_of_punctuation() {
    let table = [
        (";", 186), (":", 186),
        ("=", 187), ("+", 187),
        (",", 188), ("<", 188),
        ("-", 189), ("_", 189),
        (".", 190), (">", 190),
        ("/", 191), ("?", 191),
        ("`", 192), ("~", 192),
        ("[", 219), ("{", 219),
        ("\\", 220), ("|", 220),
        ("]", 221), ("}", 221),
        ("'", 222), ("\"", 222),
    ];
    for (text, code) in table {
        assert_eq!(character(text).legacy_keycode(), code, "{:?}", text);
    }
}

#[test]
fn legacy_keycode_of_other_characters_is_zero() {
    for text in ["!", "@", "#", "$", "%", "^", "&", "*", "(", ")", "\t", "\u{7f}", "é", "語", "😀"] {
        assert_eq!(character(text).legacy_keycode(), 0, "{:?}", text);
    }
    assert_eq!(character("e\u{301}").legacy_keycode(), 0);
    assert_eq!(character("aa").legacy_keycode(), 0);
}

#[test]
fn legacy_charcode_exact_values() {
    assert_eq!(character("A").legacy_charcode(), 65);
    assert_eq!(character("").legacy_charcode(), 0);
    assert_eq!(Key::Named(NamedKey::Enter).legacy_charcode(), 0);
    assert_eq!(character("a").legacy_charcode(), 97);
    assert_eq!(character("ab").legacy_charcode(), 97);
    assert_eq!(character("é").legacy_charcode(), 0xe9);
    assert_eq!(character("😀").legacy_charcode(), 0x1f600);
    assert_eq!(character("e\u{301}").legacy_charcode(), 101);
}

#[test]
fn first_char_is_the_first_codepoint() {
    assert_eq!(first_char("a"), 'a');
    assert_eq!(first_char("ab"), 'a');
    assert_eq!(first_char("éa"), 'é');
    assert_eq!(first_char("😀"), '😀');
}

#[test]
fn key_equality_is_structural() {
    assert_eq!(character("a"), character("a"));
    assert_ne!(character("a"), character("b"));
    assert_ne!(character("Enter"), Key::Named(NamedKey::Enter));
    assert_eq!(Key::Named(NamedKey::Enter), Key::Named(NamedKey::Enter));
    assert_ne!(Key::Named(NamedKey::Enter), Key::Named(NamedKey::Tab));
    assert_eq!(character("a").clone(), character("a"));
}

#[test]
fn key_order_and_hash_follow_equality() {
    assert!(character("a") < character("b"));
    assert!(character("z") < Key::Named(NamedKey::Unidentified));
    assert!(Key::Named(NamedKey::Unidentified) < Key::Named(NamedKey::Alt));
    assert_eq!(hash_of(&character("a")), hash_of(&character("a")));
    assert_eq!(hash_of(&Key::Named(NamedKey::Tab)), hash_of(&Key::Named(NamedKey::Tab)));
}
