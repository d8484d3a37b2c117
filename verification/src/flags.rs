//! Attribute flags of a terminal cell: a fixed-width bitset of text
//! attributes that can be combined freely.
use vstd::prelude::*;

verus! {

/// Bit mask of the inverse-video attribute.
pub const INVERSE: u16 = 0x0001;
/// Bit mask of the bold attribute.
pub const BOLD: u16 = 0x0002;
/// Bit mask of the italic attribute.
pub const ITALIC: u16 = 0x0004;
/// The union of BOLD and ITALIC, kept as a combination of those two bits
/// rather than a bit of its own.
pub const BOLD_ITALIC: u16 = 0x0006;
/// Bit mask of the underline attribute.
pub const UNDERLINE: u16 = 0x0008;
/// Bit mask marking a line that wraps into the next row.
pub const WRAPLINE: u16 = 0x0010;
/// Bit mask marking the first column of a two-column glyph.
pub const WIDE_CHAR: u16 = 0x0020;
/// Bit mask marking the second column of a two-column glyph.
pub const WIDE_CHAR_SPACER: u16 = 0x0040;
/// Bit mask of the dim attribute.
pub const DIM: u16 = 0x0080;
/// The union of DIM and BOLD, kept as a combination of those two bits
/// rather than a bit of its own.
pub const DIM_BOLD: u16 = 0x0082;
/// Bit mask of the hidden attribute.
pub const HIDDEN: u16 = 0x0100;
/// Bit mask of the strikeout attribute.
pub const STRIKEOUT: u16 = 0x0200;
/// Bit mask marking a spacer moved to the next row by a wrap.
pub const LEADING_WIDE_CHAR_SPACER: u16 = 0x0400;
/// Bit mask of the double-underline attribute.
pub const DOUBLE_UNDERLINE: u16 = 0x0800;

/// A set of text attributes attached to one terminal cell, stored as a
/// fixed-width bitset. Bit positions are stable and never renumbered,
/// since flag values take part in persisted state.
#[derive(Clone, Copy, Debug, PartialEq, Eq, Structural)]
pub struct Flags {
    pub bits: u16,
}

impl Flags {
    /// The set with no attribute at all.
    pub fn empty() -> (r: Flags)
        ensures
            r.bits == 0,
    {
        Flags { bits: 0 }
    }

    /// The set holding exactly the attributes of `bits`.
    pub fn from_bits(bits: u16) -> (r: Flags)
        ensures
            r.bits == bits,
    {
        Flags { bits }
    }

    /// Whether no attribute is set.
    pub fn is_empty(&self) -> (r: bool)
        ensures
            r == (self.bits == 0),
    {
        self.bits == 0
    }

    /// Whether every attribute of `mask` is also set in `self`.
    pub fn contains(&self, mask: u16) -> (r: bool)
        ensures
            r == (self.bits & mask == mask),
    {
        self.bits & mask == mask
    }

    /// Whether `self` shares at least one attribute with `mask`.
    pub fn intersects(&self, mask: u16) -> (r: bool)
        ensures
            r == (self.bits & mask != 0),
    {
        self.bits & mask != 0
    }

    /// Set every attribute of `mask`.
    pub fn insert(&mut self, mask: u16)
        ensures
            final(self).bits == (old(self).bits | mask),
    {
        self.bits = self.bits | mask;
    }

    /// Clear every attribute of `mask`.
    pub fn remove(&mut self, mask: u16)
        ensures
            final(self).bits == (old(self).bits & !mask),
    {
        self.bits = self.bits & !mask;
    }

    /// Flip every attribute of `mask`.
    pub fn toggle(&mut self, mask: u16)
        ensures
            final(self).bits == (old(self).bits ^ mask),
    {
        self.bits = self.bits ^ mask;
    }

    /// The attributes set in `self` or in `other`.
    pub fn union(self, other: Flags) -> (r: Flags)
        ensures
            r.bits == (self.bits | other.bits),
    {
        Flags { bits: self.bits | other.bits }
    }

    /// The attributes set in both `self` and `other`.
    pub fn intersection(self, other: Flags) -> (r: Flags)
        ensures
            r.bits == (self.bits & other.bits),
    {
        Flags { bits: self.bits & other.bits }
    }

    /// The attributes set in exactly one of `self` and `other`.
    pub fn symmetric_difference(self, other: Flags) -> (r: Flags)
        ensures
            r.bits == (self.bits ^ other.bits),
    {
        Flags { bits: self.bits ^ other.bits }
    }
}

} // verus!
