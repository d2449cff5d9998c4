//! The modifier keys that are pressed or locked while a key event occurs.

use vstd::prelude::*;

verus! {

/// Pressed modifier keys, as a set of flags.
///
/// Each modifier has one bit, named by a constant of this type; a value
/// holds the modifiers whose bits are set in it.
#[derive(Copy, Clone, Debug, Eq, Hash, PartialEq, PartialOrd, Ord, Structural)]
pub struct Modifiers {
    bits: u32,
}

impl Modifiers {
    pub const ALT: u32 = 0x01;

    pub const ALT_GRAPH: u32 = 0x02;

    pub const CAPS_LOCK: u32 = 0x04;

    pub const CONTROL: u32 = 0x08;

    pub const FN: u32 = 0x10;

    pub const FN_LOCK: u32 = 0x20;

    pub const META: u32 = 0x40;

    pub const NUM_LOCK: u32 = 0x80;

    pub const SCROLL_LOCK: u32 = 0x100;

    pub const SHIFT: u32 = 0x200;

    pub const SYMBOL: u32 = 0x400;

    pub const SYMBOL_LOCK: u32 = 0x800;

    pub const HYPER: u32 = 0x1000;

    pub const SUPER: u32 = 0x2000;

    /// The bits of all modifiers.
    pub const ALL: u32 = 0x3fff;

    /// The bits of the value.
    pub closed spec fn mask(self) -> u32 {
        self.bits
    }

    /// No modifier.
    pub fn empty() -> (none: Modifiers)
        ensures
            none.mask() == 0,
    {
        Modifiers { bits: 0 }
    }

    /// The bits of the value.
    pub fn bits(&self) -> (bits: u32)
        ensures
            bits == self.mask(),
    {
        self.bits
    }

    /// The modifiers whose bits are set in `bits`; bits that stand for no
    /// modifier are dropped.
    pub fn from_bits_truncate(bits: u32) -> (modifiers: Modifiers)
        ensures
            modifiers.mask() == bits & Modifiers::ALL,
    {
        Modifiers { bits: bits & Modifiers::ALL }
    }

    /// True if no modifier is held.
    pub fn is_empty(&self) -> (empty: bool)
        ensures
            empty == (self.mask() == 0),
    {
        self.bits == 0
    }

    /// True if every modifier of `other` is held.
    pub fn contains(&self, other: Modifiers) -> (all: bool)
        ensures
            all == (self.mask() & other.mask() == other.mask()),
    {
        self.bits & other.bits == other.bits
    }

    /// The modifiers of both values.
    pub fn union(self, other: Modifiers) -> (both: Modifiers)
        ensures
            both.mask() == self.mask() | other.mask(),
    {
        Modifiers { bits: self.bits | other.bits }
    }
}

impl Default for Modifiers {
    fn default() -> (none: Modifiers)
        ensures
            none.mask() == 0,
    {
        Modifiers::empty()
    }
}

} // verus!
