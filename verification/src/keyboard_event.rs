//! Keyboard events.

use vstd::prelude::*;

use crate::code::Code;
use crate::key::Key;
use crate::key_state::KeyState;
use crate::location::Location;
use crate::modifiers::Modifiers;
use crate::named_key::NamedKey;

verus! {

/// Keyboard events are issued for all pressed and released keys.
#[derive(Debug, Eq, Hash, PartialOrd, Ord)]
pub struct KeyboardEvent {
    /// Whether the key is pressed or released.
    pub state: KeyState,
    /// Logical key value.
    pub key: Key,
    /// Physical key position.
    pub code: Code,
    /// Location for keys with multiple instances on common keyboards.
    pub location: Location,
    /// Flags for pressed modifier keys.
    pub modifiers: Modifiers,
    /// True if the key is currently auto-repeated.
    pub repeat: bool,
    /// Events with this flag should be ignored in a text editor
    /// and instead composition events should be used.
    pub is_composing: bool,
}

impl KeyboardEvent {
    /// Whether every field but `state`, `key` and `code` has its default
    /// value: the standard location, no modifiers, not repeated and not
    /// composing.
    pub open spec fn is_plain(self) -> bool {
        &&& self.location == Location::Standard
        &&& self.modifiers.mask() == 0
        &&& !self.repeat
        &&& !self.is_composing
    }

    /// Convenience constructor which takes `key` and `code`, sets `state` to
    /// [`KeyState::Down`], and sets everything else to default values.
    pub fn key_down(key: Key, code: Code) -> (event: KeyboardEvent)
        ensures
            event.state == KeyState::Down,
            event.key == key,
            event.code == code,
            event.is_plain(),
    {
        KeyboardEvent {
            state: KeyState::Down,
            key,
            code,
            location: Location::default(),
            modifiers: Modifiers::default(),
            repeat: false,
            is_composing: false,
        }
    }

    /// Convenience constructor which takes `key` and `code`, sets `state` to
    /// [`KeyState::Up`], and sets everything else to default values.
    pub fn key_up(key: Key, code: Code) -> (event: KeyboardEvent)
        ensures
            event.state == KeyState::Up,
            event.key == key,
            event.code == code,
            event.is_plain(),
    {
        KeyboardEvent {
            state: KeyState::Up,
            key,
            code,
            location: Location::default(),
            modifiers: Modifiers::default(),
            repeat: false,
            is_composing: false,
        }
    }
}

impl Default for KeyboardEvent {
    fn default() -> (event: KeyboardEvent)
        ensures
            event.state == KeyState::Down,
            event.key == Key::Named(NamedKey::Unidentified),
            event.code == Code::Unidentified,
            event.is_plain(),
    {
        KeyboardEvent::key_down(Key::default(), Code::default())
    }
}

impl Clone for KeyboardEvent {
    fn clone(&self) -> (copy: KeyboardEvent)
        ensures
            copy == *self,
    {
        KeyboardEvent {
            state: self.state,
            key: self.key.clone(),
            code: self.code,
            location: self.location,
            modifiers: self.modifiers,
            repeat: self.repeat,
            is_composing: self.is_composing,
        }
    }
}

impl PartialEq for KeyboardEvent {
    fn eq(&self, other: &KeyboardEvent) -> (equal: bool) {
        self.state == other.state && self.key == other.key && self.code == other.code
            && self.location == other.location && self.modifiers == other.modifiers && self.repeat
            == other.repeat && self.is_composing == other.is_composing
    }
}

impl vstd::std_specs::cmp::PartialEqSpecImpl for KeyboardEvent {
    open spec fn obeys_eq_spec() -> bool {
        true
    }

    open spec fn eq_spec(&self, other: &KeyboardEvent) -> bool {
        &&& self.state == other.state
        &&& self.key@ == other.key@
        &&& self.code == other.code
        &&& self.location == other.location
        &&& self.modifiers == other.modifiers
        &&& self.repeat == other.repeat
        &&& self.is_composing == other.is_composing
    }
}

} // verus!
