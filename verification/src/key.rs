//! The logical key of a keyboard event, its textual form, and the legacy
//! numeric codes derived from it.

use vstd::prelude::*;
use vstd::std_specs::convert::FromSpec;
use vstd::string::StringSliceAdditionalSpecFns;
use vstd::utf8::{encode_scalar, encode_utf8};

use crate::first_char;
use crate::named_key::{lemma_name_starts_with_ascii, lemma_named_finds_key, NamedKey};
use crate::text::{char_is_ascii, char_is_control, is_ascii, is_control};

verus! {

/// The value received from the keypress.
#[derive(Debug, Eq, Hash, PartialOrd, Ord)]
pub enum Key {
    /// A key string that corresponds to the character typed by the user,
    /// taking into account the user's current locale setting, modifier state,
    /// and any system-level keyboard mapping overrides that are in effect.
    Character(String),
    /// A key that produces no character.
    Named(NamedKey),
}

/// The mathematical value of a [`Key`]: its text as a sequence of
/// characters, or its named key.
pub enum KeyValue {
    Character(Seq<char>),
    Named(NamedKey),
}

impl View for Key {
    type V = KeyValue;

    open spec fn view(&self) -> KeyValue {
        match self {
            Key::Character(text) => KeyValue::Character(text@),
            Key::Named(key) => KeyValue::Named(*key),
        }
    }
}

/// Parse error, returned when a string matches no [`Key`] variant.
#[derive(Clone, Debug)]
pub struct UnrecognizedKeyError;

/// Whether `text` can be the payload of a character key.
///
/// Such a text holds no control code, and every character after the first
/// lies outside the ASCII range. The second condition keeps a mistyped key
/// name, which is a word of ASCII letters, from passing as a character.
pub open spec fn key_string(text: Seq<char>) -> bool {
    forall|i: int|
        0 <= i < text.len() ==> !is_control(#[trigger] text[i]) && (i >= 1 ==> !is_ascii(text[i]))
}

/// The key that `text` stands for: a character key if `text` is a key
/// string, else the named key of that name, else none.
pub open spec fn parse_key(text: Seq<char>) -> Option<KeyValue> {
    if key_string(text) {
        Some(KeyValue::Character(text))
    } else {
        match NamedKey::named(text) {
            Some(key) => Some(KeyValue::Named(key)),
            None => None,
        }
    }
}

/// The legacy key code of a named key: a fixed code for seventeen keys,
/// zero for all others.
pub open spec fn named_keycode(key: NamedKey) -> u32 {
    match key {
        NamedKey::Backspace => 8,
        NamedKey::Tab => 9,
        NamedKey::Enter => 13,
        NamedKey::Shift => 16,
        NamedKey::Control => 17,
        NamedKey::Alt => 18,
        NamedKey::CapsLock => 20,
        NamedKey::Escape => 27,
        NamedKey::PageUp => 33,
        NamedKey::PageDown => 34,
        NamedKey::End => 35,
        NamedKey::Home => 36,
        NamedKey::ArrowLeft => 37,
        NamedKey::ArrowUp => 38,
        NamedKey::ArrowRight => 39,
        NamedKey::ArrowDown => 40,
        NamedKey::Delete => 46,
        _ => 0,
    }
}

/// The legacy key code of a single character.
///
/// The space and the digits have their code point, a letter has the code
/// point of its upper-case form, and each key of the punctuation block has
/// one code for both of its characters. Every other character has zero.
pub open spec fn char_keycode(c: char) -> u32 {
    if c == ' ' {
        32
    } else if '0' <= c <= '9' {
        c as u32
    } else if 'a' <= c <= 'z' {
        (c as u32 - 32) as u32
    } else if 'A' <= c <= 'Z' {
        c as u32
    } else if c == ';' || c == ':' {
        186
    } else if c == '=' || c == '+' {
        187
    } else if c == ',' || c == '<' {
        188
    } else if c == '-' || c == '_' {
        189
    } else if c == '.' || c == '>' {
        190
    } else if c == '/' || c == '?' {
        191
    } else if c == '`' || c == '~' {
        192
    } else if c == '[' || c == '{' {
        219
    } else if c == '\\' || c == '|' {
        220
    } else if c == ']' || c == '}' {
        221
    } else if c == '\'' || c == '"' {
        222
    } else {
        0
    }
}

impl KeyValue {
    /// Whether the value can come out of parsing: a character key holds a
    /// key string.
    pub open spec fn is_valid(self) -> bool {
        match self {
            KeyValue::Character(text) => key_string(text),
            KeyValue::Named(_) => true,
        }
    }

    /// The textual form: the text of a character key, the name of a named
    /// key.
    pub open spec fn display(self) -> Seq<char> {
        match self {
            KeyValue::Character(text) => text,
            KeyValue::Named(key) => key.text(),
        }
    }

    /// The legacy character code: the code point of the first character of
    /// a character key, zero for an empty text and for a named key.
    pub open spec fn legacy_charcode(self) -> u32 {
        match self {
            KeyValue::Character(text) => if text.len() == 0 {
                0
            } else {
                text[0] as u32
            },
            KeyValue::Named(_) => 0,
        }
    }

    /// The legacy key code: that of the named key, or that of the character
    /// of a text of exactly one character, else zero.
    pub open spec fn legacy_keycode(self) -> u32 {
        match self {
            KeyValue::Character(text) => if text.len() == 1 {
                char_keycode(text[0])
            } else {
                0
            },
            KeyValue::Named(key) => named_keycode(key),
        }
    }
}

impl Clone for Key {
    fn clone(&self) -> (copy: Key)
        ensures
            copy == *self,
    {
        match self {
            Key::Character(text) => Key::Character(text.clone()),
            Key::Named(key) => Key::Named(*key),
        }
    }
}

impl PartialEq for Key {
    fn eq(&self, other: &Key) -> (equal: bool) {
        match (self, other) {
            (Key::Character(a), Key::Character(b)) => *a == *b,
            (Key::Named(a), Key::Named(b)) => *a == *b,
            _ => false,
        }
    }
}

impl vstd::std_specs::cmp::PartialEqSpecImpl for Key {
    open spec fn obeys_eq_spec() -> bool {
        true
    }

    open spec fn eq_spec(&self, other: &Key) -> bool {
        self@ == other@
    }
}

impl From<NamedKey> for Key {
    fn from(value: NamedKey) -> (key: Key) {
        Key::Named(value)
    }
}

impl vstd::std_specs::convert::FromSpecImpl<NamedKey> for Key {
    open spec fn obeys_from_spec() -> bool {
        true
    }

    open spec fn from_spec(value: NamedKey) -> Key {
        Key::Named(value)
    }
}

impl Default for Key {
    fn default() -> (key: Key)
        ensures
            key == Key::Named(NamedKey::Unidentified),
    {
        Key::Named(NamedKey::default())
    }
}

impl core::str::FromStr for Key {
    type Err = UnrecognizedKeyError;

    /// Parses a key from its textual form, as [`Key::from_str`] does.
    fn from_str(s: &str) -> (parsed: Result<Key, UnrecognizedKeyError>)
        ensures
            match parsed {
                Ok(key) => parse_key(s@) == Some(key@) && key@.is_valid(),
                Err(_) => parse_key(s@) is None,
            },
    {
        Key::from_str(s)
    }
}

impl Key {
    /// Parses a key from its textual form.
    ///
    /// A key string gives the character key that holds it. Any other text
    /// gives the named key of that name, and fails if no key has that name.
    pub fn from_str(s: &str) -> (parsed: Result<Key, UnrecognizedKeyError>)
        ensures
            match parsed {
                Ok(key) => parse_key(s@) == Some(key@) && key@.is_valid(),
                Err(_) => parse_key(s@) is None,
            },
    {
        if is_key_string(s) {
            Ok(Key::Character(s.to_owned()))
        } else {
            match NamedKey::from_str(s) {
                Ok(key) => Ok(Key::Named(key)),
                Err(_) => Err(UnrecognizedKeyError),
            }
        }
    }

    /// The textual form of the key: the text of a character key unchanged,
    /// the canonical name of a named key.
    pub fn to_string(&self) -> (text: String)
        ensures
            text@ == self@.display(),
    {
        match self {
            Key::Character(s) => s.clone(),
            Key::Named(key) => key.as_str().to_owned(),
        }
    }

    /// Determine a *charCode* value for a key with a character value.
    ///
    /// For all other keys the value is zero.
    /// The *charCode* is a legacy property of DOM keyboard events.
    pub fn legacy_charcode(&self) -> (code: u32)
        ensures
            code == self@.legacy_charcode(),
    {
        match self {
            Key::Character(c) => {
                let s = c.as_str();
                if s.is_empty() {
                    0
                } else {
                    first_char(s) as u32
                }
            },
            Key::Named(_) => 0,
        }
    }

    /// Determine a *keyCode* value for a key.
    ///
    /// The *keyCode* is a legacy property of DOM keyboard events.
    pub fn legacy_keycode(&self) -> (code: u32)
        ensures
            code == self@.legacy_keycode(),
    {
        match self {
            // The fixed virtual key codes.
            Key::Named(NamedKey::Backspace) => 8,
            Key::Named(NamedKey::Tab) => 9,
            Key::Named(NamedKey::Enter) => 13,
            Key::Named(NamedKey::Shift) => 16,
            Key::Named(NamedKey::Control) => 17,
            Key::Named(NamedKey::Alt) => 18,
            Key::Named(NamedKey::CapsLock) => 20,
            Key::Named(NamedKey::Escape) => 27,
            Key::Named(NamedKey::PageUp) => 33,
            Key::Named(NamedKey::PageDown) => 34,
            Key::Named(NamedKey::End) => 35,
            Key::Named(NamedKey::Home) => 36,
            Key::Named(NamedKey::ArrowLeft) => 37,
            Key::Named(NamedKey::ArrowUp) => 38,
            Key::Named(NamedKey::ArrowRight) => 39,
            Key::Named(NamedKey::ArrowDown) => 40,
            Key::Named(NamedKey::Delete) => 46,
            Key::Named(_) => 0,
            Key::Character(c) => {
                let s = c.as_str();
                proof {
                    lemma_one_byte_is_one_ascii_char(s@);
                }
                // A text of one byte is a text of one ASCII character, and no
                // other character has a code.
                if s.as_bytes().len() != 1 {
                    return 0;
                }
                match first_char(s) {
                    ' ' => 32,
                    x @ '0'..='9' => x as u32,
                    x @ 'a'..='z' => x as u32 - 32,
                    x @ 'A'..='Z' => x as u32,
                    // The optionally fixed virtual key codes.
                    ';' | ':' => 186,
                    '=' | '+' => 187,
                    ',' | '<' => 188,
                    '-' | '_' => 189,
                    '.' | '>' => 190,
                    '/' | '?' => 191,
                    '`' | '~' => 192,
                    '[' | '{' => 219,
                    '\\' | '|' => 220,
                    ']' | '}' => 221,
                    '\'' | '"' => 222,
                    _ => 0,
                }
            },
        }
    }
}

/// The encoding of a text is at least as long as the text.
proof fn lemma_encoding_covers_text(text: Seq<char>)
    ensures
        encode_utf8(text).len() >= text.len(),
    decreases text.len(),
{
    if text.len() > 0 {
        lemma_one_byte_is_ascii(text[0]);
        lemma_encoding_covers_text(text.drop_first());
    }
}

/// A character is encoded in one byte exactly when it is an ASCII character.
proof fn lemma_one_byte_is_ascii(c: char)
    ensures
        encode_scalar(c as u32).len() >= 1,
        encode_scalar(c as u32).len() == 1 <==> is_ascii(c),
{
}

/// A text is encoded in one byte exactly when it is one ASCII character.
proof fn lemma_one_byte_is_one_ascii_char(text: Seq<char>)
    ensures
        encode_utf8(text).len() == 1 <==> text.len() == 1 && is_ascii(text[0]),
{
    if text.len() == 0 {
        assert(encode_utf8(text).len() == 0);
    } else {
        let rest = text.drop_first();
        lemma_one_byte_is_ascii(text[0]);
        lemma_encoding_covers_text(rest);
        assert(encode_utf8(text) == encode_scalar(text[0] as u32) + encode_utf8(rest));
        assert(rest.len() == 0 ==> encode_utf8(rest).len() == 0);
    }
}

/// Checks whether a string can be the payload of a character key.
///
/// The check is simple, and is meant to keep common mistakes such as a
/// mistyped key name from being taken for characters.
pub fn is_key_string(s: &str) -> (valid: bool)
    ensures
        valid == key_string(s@),
{
    let mut first = true;
    for c in it: s.chars()
        invariant
            it.seq() == s@,
            first == (it.index() == 0),
            forall|i: int|
                0 <= i < it.index() ==> !is_control(#[trigger] s@[i]) && (i >= 1 ==> !is_ascii(
                    s@[i],
                )),
    {
        if char_is_control(c) || (!first && char_is_ascii(c)) {
            return false;
        }
        first = false;
    }
    true
}

/// Parsing a text and displaying the result gives the text back, so that
/// parsing the displayed form of a parsed key gives the same key.
pub proof fn lemma_parse_display_round_trip(text: Seq<char>)
    requires
        parse_key(text) is Some,
    ensures
        parse_key(text).unwrap().is_valid(),
        parse_key(text).unwrap().display() == text,
        parse_key(parse_key(text).unwrap().display()) == parse_key(text),
{
}

/// Every valid key is the result of parsing its displayed form: a character
/// key that holds a key string, and every named key.
pub proof fn lemma_display_parse_round_trip(key: KeyValue)
    requires
        key.is_valid(),
    ensures
        parse_key(key.display()) == Some(key),
{
    match key {
        KeyValue::Character(_) => {},
        KeyValue::Named(named) => {
            lemma_name_is_no_key_string(named);
            lemma_named_finds_key(named);
        },
    }
}

/// No name of a named key is a key string, so that a name is never taken
/// for a character key.
pub proof fn lemma_name_is_no_key_string(key: NamedKey)
    ensures
        !key_string(key.text()),
{
    lemma_name_starts_with_ascii(key);
    assert(is_ascii(key.text()[1]));
}

/// A text of one character is a key string exactly when the character is
/// no control code.
pub proof fn lemma_single_char_key_string(c: char)
    ensures
        key_string(seq![c]) <==> !is_control(c),
{
    assert(seq![c][0] == c);
}

/// A text whose second character lies in the ASCII range is no key string.
pub proof fn lemma_ascii_word_is_no_key_string(text: Seq<char>)
    requires
        text.len() >= 2,
        is_ascii(text[1]),
    ensures
        !key_string(text),
{
}

/// Converting a named key into a key gives the named arm with that key,
/// so that different named keys give different keys.
pub proof fn lemma_from_named_key(a: NamedKey, b: NamedKey)
    ensures
        Key::from_spec(a)@ == KeyValue::Named(a),
        Key::from_spec(a)@ == Key::from_spec(b)@ ==> a == b,
{
}

/// The key code of a letter does not depend on its case: it is the code
/// point of the upper-case letter.
pub proof fn lemma_keycode_ignores_case(lower: char, upper: char)
    requires
        'a' <= lower <= 'z',
        upper as int == lower as int - 32,
    ensures
        'A' <= upper <= 'Z',
        char_keycode(lower) == char_keycode(upper),
        char_keycode(upper) == upper as u32,
{
}

/// A key code is zero or lies between 8 and 222; a character outside the
/// ASCII range has the code zero.
pub proof fn lemma_keycode_range(key: KeyValue)
    ensures
        key.legacy_keycode() == 0 || 8 <= key.legacy_keycode() <= 222,
        key matches KeyValue::Character(text) ==> (text.len() == 1 && !is_ascii(text[0])
            ==> key.legacy_keycode() == 0),
{
}

} // verus!
