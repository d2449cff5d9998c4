use vstd::prelude::*;

verus! {

/// Describes the state a key is in.
#[derive(Copy, Clone, Debug, Eq, Hash, PartialEq, PartialOrd, Ord, Structural)]
pub enum KeyState {
    /// The key is pressed down; reported by a `keydown` event.
    Down,
    /// The key is not pressed, or was just released; reported by a `keyup` event.
    Up,
}

impl KeyState {
    /// The event type name as a sequence of characters.
    pub open spec fn event_type_text(self) -> Seq<char> {
        match self {
            KeyState::Down => "keydown"@,
            KeyState::Up => "keyup"@,
        }
    }

    /// The type name of the corresponding key event:
    /// either `"keydown"` or `"keyup"`.
    pub fn event_type(self) -> (name: &'static str)
        ensures
            name@ == self.event_type_text(),
    {
        match self {
            KeyState::Down => "keydown",
            KeyState::Up => "keyup",
        }
    }

    /// True if the key is pressed down.
    pub fn is_down(self) -> (down: bool)
        ensures
            down == (self == KeyState::Down),
    {
        matches!(self, KeyState::Down)
    }

    /// True if the key is released.
    pub fn is_up(self) -> (up: bool)
        ensures
            up == (self == KeyState::Up),
    {
        matches!(self, KeyState::Up)
    }
}

impl Default for KeyState {
    fn default() -> (state: KeyState)
        ensures
            state == KeyState::Down,
    {
        KeyState::Down
    }
}

} // verus!
