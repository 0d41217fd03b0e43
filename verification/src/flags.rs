//! The processor's status flags.

use vstd::prelude::*;

verus! {

/// The processor status byte, one condition per bit. The constants below give
/// each condition's mask.
#[derive(Clone, Copy, Debug, PartialEq, Eq, Structural)]
pub struct Flags {
    pub bits: u8,
}

pub const FLAG_CARRY: u8 = 0x01;

pub const FLAG_ZERO: u8 = 0x02;

/// Interrupt requests are disabled.
pub const FLAG_NO_IRQ: u8 = 0x04;

pub const FLAG_DECIMAL: u8 = 0x08;

/// The index registers are 16 bits wide.
pub const FLAG_XY16: u8 = 0x10;

/// The accumulator is 16 bits wide.
pub const FLAG_A16: u8 = 0x20;

pub const FLAG_OVERFLOW: u8 = 0x40;

pub const FLAG_NEGATIVE: u8 = 0x80;

impl Flags {
    /// Every bit of `other` is set in `self`.
    pub open spec fn has(self, other: Flags) -> bool {
        self.bits & other.bits == other.bits
    }

    /// `self` with every bit of `other` set as well.
    pub open spec fn with(self, other: Flags) -> Flags {
        Flags { bits: self.bits | other.bits }
    }

    /// Whether every bit of `other` is set.
    pub fn contains(&self, other: Flags) -> (held: bool)
        ensures
            held == self.has(other),
    {
        self.bits & other.bits == other.bits
    }

    /// Sets every bit of `other`.
    pub fn insert(&mut self, other: Flags)
        ensures
            *final(self) == old(self).with(other),
    {
        self.bits = self.bits | other.bits;
    }
}

} // verus!
