//! Logical keys and modifier sets, independent of any native event model.
use vstd::prelude::*;

verus! {

pub const SHIFT_BIT: u8 = 1;

pub const CONTROL_BIT: u8 = 2;

pub const ALT_BIT: u8 = 4;

pub const SUPER_BIT: u8 = 8;

pub const HYPER_BIT: u8 = 16;

pub const META_BIT: u8 = 32;

/// Every bit that a modifier set may hold.
pub const ALL_MODIFIER_BITS: u8 = 63;

/// A set of modifier keys, one bit per modifier.
#[derive(Clone, Copy, Debug, PartialEq, Eq, Structural)]
pub struct KeyModifiers {
    pub bits: u8,
}

impl KeyModifiers {
    /// Only the six known modifier bits may be set.
    pub open spec fn wf(self) -> bool {
        self.bits <= ALL_MODIFIER_BITS
    }

    pub open spec fn has(self, bit: u8) -> bool {
        self.bits & bit == bit
    }

    pub fn empty() -> (r: KeyModifiers)
        ensures
            r.bits == 0,
            r.wf(),
    {
        KeyModifiers { bits: 0 }
    }

    /// Keeps the known modifier bits of `bits` and drops the others.
    pub fn from_bits_truncate(bits: u8) -> (r: KeyModifiers)
        ensures
            r.bits == bits & ALL_MODIFIER_BITS,
            bits <= ALL_MODIFIER_BITS ==> r.bits == bits,
            r.wf(),
    {
        proof {
            assert((bits & 63u8) <= 63u8) by (bit_vector);
            assert(bits <= 63u8 ==> bits & 63u8 == bits) by (bit_vector);
        }
        KeyModifiers { bits: bits & ALL_MODIFIER_BITS }
    }

    pub fn shift() -> (r: KeyModifiers)
        ensures
            r.bits == SHIFT_BIT,
            r.wf(),
    {
        KeyModifiers::from_bits_truncate(SHIFT_BIT)
    }

    pub fn control() -> (r: KeyModifiers)
        ensures
            r.bits == CONTROL_BIT,
            r.wf(),
    {
        KeyModifiers::from_bits_truncate(CONTROL_BIT)
    }

    pub fn alt() -> (r: KeyModifiers)
        ensures
            r.bits == ALT_BIT,
            r.wf(),
    {
        KeyModifiers::from_bits_truncate(ALT_BIT)
    }

    pub fn super_key() -> (r: KeyModifiers)
        ensures
            r.bits == SUPER_BIT,
            r.wf(),
    {
        KeyModifiers::from_bits_truncate(SUPER_BIT)
    }

    pub fn hyper() -> (r: KeyModifiers)
        ensures
            r.bits == HYPER_BIT,
            r.wf(),
    {
        KeyModifiers::from_bits_truncate(HYPER_BIT)
    }

    pub fn meta() -> (r: KeyModifiers)
        ensures
            r.bits == META_BIT,
            r.wf(),
    {
        KeyModifiers::from_bits_truncate(META_BIT)
    }

    pub fn contains(&self, other: KeyModifiers) -> (r: bool)
        ensures
            r == self.has(other.bits),
    {
        self.bits & other.bits == other.bits
    }

    pub fn is_empty(&self) -> (r: bool)
        ensures
            r == (self.bits == 0),
    {
        self.bits == 0
    }

    pub fn union(&self, other: KeyModifiers) -> (r: KeyModifiers)
        requires
            self.wf(),
            other.wf(),
        ensures
            r.bits == self.bits | other.bits,
            r.wf(),
    {
        let a = self.bits;
        let b = other.bits;
        proof {
            assert(a <= 63u8 && b <= 63u8 ==> (a | b) <= 63u8) by (bit_vector);
        }
        KeyModifiers { bits: a | b }
    }
}

/// A logical key press.
#[derive(Clone, Copy, Debug, PartialEq, Eq, Structural)]
pub enum Key {
    Escape,
    Enter,
    Tab,
    Backspace,
    Delete(KeyModifiers),
    Home,
    End,
    PageUp(KeyModifiers),
    PageDown(KeyModifiers),
    Up(KeyModifiers),
    Down(KeyModifiers),
    Left(KeyModifiers),
    Right(KeyModifiers),
    Char(char, KeyModifiers),
    /// A press that no other variant describes; a last-resort catch-all.
    Any,
}

} // verus!
