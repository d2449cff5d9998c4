//! The location of a key on the keyboard.

use vstd::prelude::*;

verus! {

/// The location attribute contains an indication of the logical location
/// of the key on the device.
#[derive(Copy, Clone, Debug, Eq, Hash, PartialEq, PartialOrd, Ord, Structural)]
pub enum Location {
    /// The key activation is not distinguished as the left or right version
    /// of the key, and did not originate from the numeric keypad.
    Standard,
    /// The key activated originated from the left key location, where there
    /// is more than one possible location for this key.
    Left,
    /// The key activation originated from the right key location, where there
    /// is more than one possible location for this key.
    Right,
    /// The key activation originated on the numeric keypad or with a virtual
    /// key corresponding to the numeric keypad.
    Numpad,
}

impl Default for Location {
    fn default() -> (location: Location)
        ensures
            location == Location::Standard,
    {
        Location::Standard
    }
}

} // verus!
