//! The modifier keys that accompany a keyboard event.

use vstd::prelude::*;

verus! {

/// Bit of the shift key.
pub const SHIFT: u32 = 0x4;

/// Bit of the control key.
pub const CTRL: u32 = 0x20;

/// Bit of the alt key.
pub const ALT: u32 = 0x100;

/// Bit of the logo key, also known as super or windows key.
pub const LOGO: u32 = 0x800;

/// All bits that stand for a modifier.
pub const ALL: u32 = 0x924;

/// A set of modifier keys, one bit for each.
#[derive(Debug, Clone, Copy, PartialEq, Eq, Hash, Structural)]
pub struct Modifiers {
    /// The bits of the modifiers that are held.
    pub bits: u32,
}

impl Modifiers {
    /// Whether every bit of `other` is a bit of this set.
    pub open spec fn spec_contains(&self, other: Modifiers) -> bool {
        self.bits & other.bits == other.bits
    }

    /// Whether the shift key is in the set.
    pub open spec fn spec_shift(&self) -> bool {
        self.bits & SHIFT != 0
    }

    /// Whether the control key is in the set.
    pub open spec fn spec_control(&self) -> bool {
        self.bits & CTRL != 0
    }

    /// Whether the alt key is in the set.
    pub open spec fn spec_alt(&self) -> bool {
        self.bits & ALT != 0
    }

    /// Whether the logo key is in the set.
    pub open spec fn spec_logo(&self) -> bool {
        self.bits & LOGO != 0
    }

    /// The set without any modifier.
    pub fn empty() -> (m: Modifiers)
        ensures
            m.bits == 0,
    {
        Modifiers { bits: 0 }
    }

    /// The set that holds the modifiers among the given bits; other bits are dropped.
    pub fn from_bits_truncate(bits: u32) -> (m: Modifiers)
        ensures
            m.bits == bits & ALL,
    {
        Modifiers { bits: bits & ALL }
    }

    /// The modifiers of either set.
    pub fn union(self, other: Modifiers) -> (m: Modifiers)
        ensures
            m.bits == self.bits | other.bits,
    {
        Modifiers { bits: self.bits | other.bits }
    }

    /// Tells whether no modifier is held.
    pub fn is_empty(&self) -> (b: bool)
        ensures
            b == (self.bits == 0),
    {
        self.bits == 0
    }

    /// Tells whether all modifiers of `other` are held.
    #[verifier::when_used_as_spec(spec_contains)]
    pub fn contains(&self, other: Modifiers) -> (b: bool)
        ensures
            b == self.spec_contains(other),
    {
        (self.bits & other.bits) == other.bits
    }

    /// Tells whether the shift key is held.
    #[verifier::when_used_as_spec(spec_shift)]
    pub fn shift(&self) -> (b: bool)
        ensures
            b == self.spec_shift(),
    {
        (self.bits & SHIFT) != 0
    }

    /// Tells whether the control key is held.
    #[verifier::when_used_as_spec(spec_control)]
    pub fn control(&self) -> (b: bool)
        ensures
            b == self.spec_control(),
    {
        (self.bits & CTRL) != 0
    }

    /// Tells whether the alt key is held.
    #[verifier::when_used_as_spec(spec_alt)]
    pub fn alt(&self) -> (b: bool)
        ensures
            b == self.spec_alt(),
    {
        (self.bits & ALT) != 0
    }

    /// Tells whether the logo key is held.
    #[verifier::when_used_as_spec(spec_logo)]
    pub fn logo(&self) -> (b: bool)
        ensures
            b == self.spec_logo(),
    {
        (self.bits & LOGO) != 0
    }
}

} // verus!
