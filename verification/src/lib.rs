//! Value types for keyboard input: logical keys, physical key positions,
//! key and composition events, and the legacy numeric key codes derived
//! from them.
//!
//! The naming follows the UI Events standard of the W3C.

use vstd::prelude::*;
use vstd::string::StrSliceExecFns;

pub mod code;
pub mod composition;
pub mod key;
pub mod key_state;
pub mod keyboard_event;
pub mod location;
pub mod modifiers;
pub mod named_key;
pub mod text;

pub use crate::code::{Code, UnrecognizedCodeError};
pub use crate::composition::{
    is_well_formed_session, CompositionEvent, CompositionPhase, CompositionState,
};
pub use crate::key::{is_key_string, Key, KeyValue, UnrecognizedKeyError};
pub use crate::key_state::KeyState;
pub use crate::keyboard_event::KeyboardEvent;
pub use crate::location::Location;
pub use crate::modifiers::Modifiers;
pub use crate::named_key::{NamedKey, UnrecognizedNamedKeyError};

verus! {

impl Default for NamedKey {
    fn default() -> (key: NamedKey)
        ensures
            key == NamedKey::Unidentified,
    {
        NamedKey::Unidentified
    }
}

impl Default for Code {
    fn default() -> (code: Code)
        ensures
            code == Code::Unidentified,
    {
        Code::Unidentified
    }
}

/// Return the first codepoint of a string, which must not be empty.
pub fn first_char(s: &str) -> (c: char)
    requires
        s@.len() > 0,
    ensures
        c == s@[0],
{
    s.get_char(0)
}

} // verus!
