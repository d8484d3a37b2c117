//! A single cell of the terminal grid: glyph, colors, attribute flags and
//! lazily allocated side storage for rare attributes, together with the
//! capability contracts that let generic grid algorithms work over cells.
use vstd::prelude::*;

use crate::color::{Color, NamedColor};
use crate::flags::{self, Flags};

verus! {

/// Dynamically allocated cell content.
///
/// This storage is reserved for cell attributes which are rarely set, so
/// that the dominant plain-text cell carries a single optional pointer
/// instead of the storage itself.
#[derive(Debug, Clone)]
pub struct CellExtra {
    pub zerowidth: Vec<char>,
}

/// Content and attributes of a single cell in the terminal grid.
#[derive(Debug, Clone)]
pub struct Cell {
    pub c: char,
    pub fg: Color,
    pub bg: Color,
    pub flags: Flags,
    pub extra: Option<Box<CellExtra>>,
}

/// The zero-width characters attached to `cell`, in push order; empty when
/// no extra storage exists.
pub open spec fn zerowidth_of(cell: Cell) -> Seq<char> {
    match cell.extra {
        Some(extra) => extra.zerowidth@,
        None => Seq::empty(),
    }
}

impl Cell {
    /// The cell a fresh grid is filled with: a space with the named default
    /// colors, no attributes and no extra storage.
    pub open spec fn default_spec() -> Cell {
        Cell {
            c: ' ',
            fg: Color::Named(NamedColor::Foreground),
            bg: Color::Named(NamedColor::Background),
            flags: Flags { bits: 0 },
            extra: None,
        }
    }

    /// Whether the cell counts as blank for layout purposes: a space or tab
    /// glyph, both colors at their named defaults, none of the
    /// emptiness-relevant flags set, and no attached zero-width characters.
    /// BOLD, ITALIC, DIM, HIDDEN and WIDE_CHAR deliberately do not affect
    /// emptiness: a bold space is still blank for layout purposes.
    pub open spec fn is_empty_spec(self) -> bool {
        &&& (self.c == ' ' || self.c == '\t')
        &&& self.bg == Color::Named(NamedColor::Background)
        &&& self.fg == Color::Named(NamedColor::Foreground)
        &&& self.flags.bits & (flags::INVERSE | flags::UNDERLINE | flags::DOUBLE_UNDERLINE
            | flags::STRIKEOUT | flags::WRAPLINE | flags::WIDE_CHAR_SPACER
            | flags::LEADING_WIDE_CHAR_SPACER) == 0
        &&& zerowidth_of(self).len() == 0
    }

    /// The cell with its extra storage discarded and all else kept.
    pub open spec fn without_extra(self) -> Cell {
        Cell { extra: None, ..self }
    }

    /// Zero-width characters stored in this cell.
    pub fn zerowidth(&self) -> (r: Option<&[char]>)
        ensures
            match r {
                Some(s) => self.extra is Some && s@ == zerowidth_of(*self),
                None => self.extra is None,
            },
    {
        match &self.extra {
            Some(extra) => Some(extra.zerowidth.as_slice()),
            None => None,
        }
    }

    /// Write a new zero-width character to this cell, allocating the extra
    /// storage on first use.
    pub fn push_zerowidth(&mut self, ch: char)
        ensures
            zerowidth_of(*final(self)) == zerowidth_of(*old(self)).push(ch),
            final(self).extra is Some,
            final(self).c == old(self).c,
            final(self).fg == old(self).fg,
            final(self).bg == old(self).bg,
            final(self).flags == old(self).flags,
    {
        if self.extra.is_none() {
            self.extra = Some(Box::new(CellExtra { zerowidth: Vec::new() }));
            proof {
                assert(zerowidth_of(*self) =~= zerowidth_of(*old(self)));
            }
        }
        if let Some(extra) = &mut self.extra {
            extra.zerowidth.push(ch);
        }
    }

    /// Free all dynamically allocated cell storage.
    pub fn drop_extra(&mut self)
        ensures
            *final(self) == old(self).without_extra(),
    {
        if self.extra.is_some() {
            self.extra = None;
        }
    }
}

/// Whether two vectors hold the same characters.
fn chars_eq(a: &Vec<char>, b: &Vec<char>) -> (r: bool)
    ensures
        r == (a@ == b@),
{
    if a.len() != b.len() {
        return false;
    }
    let mut i: usize = 0;
    while i < a.len()
        invariant
            i <= a@.len(),
            a@.len() == b@.len(),
            forall|j: int| 0 <= j < i ==> a@[j] == b@[j],
        decreases a@.len() - i,
    {
        if a[i] != b[i] {
            return false;
        }
        i = i + 1;
    }
    proof {
        assert(a@ =~= b@);
    }
    true
}

impl PartialEq for Cell {
    /// Value-based comparison: plain fields compare directly, and the
    /// extra storage compares by presence and contents.
    fn eq(&self, other: &Cell) -> (r: bool) {
        if !(self.c == other.c && self.fg == other.fg && self.bg == other.bg && self.flags
            == other.flags) {
            return false;
        }
        match (&self.extra, &other.extra) {
            (None, None) => true,
            (Some(a), Some(b)) => chars_eq(&a.zerowidth, &b.zerowidth),
            _ => false,
        }
    }
}

impl vstd::std_specs::cmp::PartialEqSpecImpl for Cell {
    open spec fn obeys_eq_spec() -> bool {
        true
    }

    open spec fn eq_spec(&self, other: &Cell) -> bool {
        &&& self.c == other.c
        &&& self.fg == other.fg
        &&& self.bg == other.bg
        &&& self.flags == other.flags
        &&& (self.extra is Some <==> other.extra is Some)
        &&& zerowidth_of(*self) == zerowidth_of(*other)
    }
}

impl Default for Cell {
    /// A space with the named default colors, no attributes and no extra
    /// storage.
    fn default() -> (r: Cell)
        ensures
            r == Cell::default_spec(),
    {
        Cell {
            c: ' ',
            fg: Color::Named(NamedColor::Foreground),
            bg: Color::Named(NamedColor::Background),
            flags: Flags { bits: 0 },
            extra: None,
        }
    }
}

impl From<Color> for Cell {
    /// A default cell whose background is the given color, as used when
    /// erasing or filling blank regions.
    fn from(color: Color) -> (r: Cell) {
        let mut cell = Cell::default();
        cell.bg = color;
        cell
    }
}

impl vstd::std_specs::convert::FromSpecImpl<Color> for Cell {
    open spec fn obeys_from_spec() -> bool {
        true
    }

    open spec fn from_spec(color: Color) -> Cell {
        Cell { bg: color, ..Cell::default_spec() }
    }
}

/// Trait for determining if a reset should be performed: it answers which
/// value equality-of-reset is judged on for a value of the implementing
/// type.
pub trait ResetDiscriminant<T> {
    /// The value the discriminant is judged on.
    spec fn discriminant_spec(&self) -> T;

    /// Value based on which equality for the reset will be determined.
    fn discriminant(&self) -> (r: T)
        ensures
            r == self.discriminant_spec(),
    ;
}

impl<T: Copy> ResetDiscriminant<T> for T {
    open spec fn discriminant_spec(&self) -> T {
        *self
    }

    fn discriminant(&self) -> (r: T) {
        *self
    }
}

impl ResetDiscriminant<Color> for Cell {
    open spec fn discriminant_spec(&self) -> Color {
        self.bg
    }

    fn discriminant(&self) -> (r: Color) {
        self.bg
    }
}

/// The contract a cell type must satisfy to take part in generic row and
/// grid algorithms: an emptiness test, flag access, and reset to a
/// template.
pub trait GridCell: Sized {
    /// Whether the cell counts as blank for layout purposes.
    spec fn empty_spec(&self) -> bool;

    /// The attribute flags of the cell.
    spec fn flags_of(&self) -> Flags;

    /// The cell with its flags replaced and all else kept.
    spec fn with_flags(&self, flags: Flags) -> Self;

    /// The cell that `reset` leaves behind for a given template.
    spec fn reset_spec(template: &Self) -> Self;

    /// Whether the cell counts as blank for layout purposes.
    fn is_empty(&self) -> (r: bool)
        ensures
            r == self.empty_spec(),
    ;

    /// Read access to the attribute flags.
    fn flags(&self) -> (r: &Flags)
        ensures
            *r == self.flags_of(),
    ;

    /// Write access to the attribute flags; nothing else of the cell can
    /// change through the returned reference.
    fn flags_mut(&mut self) -> (r: &mut Flags)
        ensures
            *r == old(self).flags_of(),
            *final(self) == old(self).with_flags(*final(r)),
    ;

    /// Overwrite the cell with a fresh default cell except that its
    /// background is taken from the template; any extra storage is
    /// dropped.
    fn reset(&mut self, template: &Self)
        ensures
            *final(self) == Self::reset_spec(template),
    ;
}

impl GridCell for Cell {
    open spec fn empty_spec(&self) -> bool {
        self.is_empty_spec()
    }

    open spec fn flags_of(&self) -> Flags {
        self.flags
    }

    open spec fn with_flags(&self, flags: Flags) -> Cell {
        Cell { flags, ..*self }
    }

    open spec fn reset_spec(template: &Cell) -> Cell {
        Cell { bg: template.bg, ..Cell::default_spec() }
    }

    fn is_empty(&self) -> (r: bool) {
        let zw_empty = match &self.extra {
            Some(extra) => extra.zerowidth.len() == 0,
            None => true,
        };
        (self.c == ' ' || self.c == '\t') && self.bg == Color::Named(NamedColor::Background)
            && self.fg == Color::Named(NamedColor::Foreground) && !self.flags.intersects(
            flags::INVERSE | flags::UNDERLINE | flags::DOUBLE_UNDERLINE | flags::STRIKEOUT
                | flags::WRAPLINE | flags::WIDE_CHAR_SPACER | flags::LEADING_WIDE_CHAR_SPACER,
        ) && zw_empty
    }

    fn flags(&self) -> (r: &Flags) {
        &self.flags
    }

    fn flags_mut(&mut self) -> (r: &mut Flags) {
        &mut self.flags
    }

    fn reset(&mut self, template: &Self) {
        let mut fresh = Cell::default();
        fresh.bg = template.bg;
        *self = fresh;
    }
}

/// Resetting against a template yields the default cell except for the
/// template's background, and leaves no zero-width characters attached.
pub proof fn lemma_reset_yields_default(template: Cell)
    ensures
        Cell::reset_spec(&template) == (Cell { bg: template.bg, ..Cell::default_spec() }),
        zerowidth_of(Cell::reset_spec(&template)) == Seq::<char>::empty(),
{
    assert(zerowidth_of(Cell::reset_spec(&template)) =~= Seq::<char>::empty());
}

/// Discarding the extra storage erases every trace of it: two cells that
/// agree on glyph, colors and flags are equal after it, whatever was
/// pushed into either of them before, and no zero-width characters remain.
pub proof fn lemma_drop_extra_forgets(a: Cell, b: Cell)
    requires
        a.c == b.c,
        a.fg == b.fg,
        a.bg == b.bg,
        a.flags == b.flags,
    ensures
        a.without_extra() == b.without_extra(),
        zerowidth_of(a.without_extra()) == Seq::<char>::empty(),
{
    assert(zerowidth_of(a.without_extra()) =~= Seq::<char>::empty());
}

/// The default cell is empty.
pub proof fn lemma_default_is_empty()
    ensures
        Cell::default_spec().is_empty_spec(),
{
    assert(0u16 & (flags::INVERSE | flags::UNDERLINE | flags::DOUBLE_UNDERLINE | flags::STRIKEOUT
        | flags::WRAPLINE | flags::WIDE_CHAR_SPACER | flags::LEADING_WIDE_CHAR_SPACER) == 0)
        by (bit_vector);
    assert(zerowidth_of(Cell::default_spec()) =~= Seq::<char>::empty());
}

/// Emptiness ignores the purely stylistic attributes: setting any
/// combination of BOLD, ITALIC, DIM, HIDDEN and WIDE_CHAR on a cell does
/// not change whether it is empty.
pub proof fn lemma_is_empty_ignores_style_flags(cell: Cell, mask: u16)
    requires
        mask & !(flags::BOLD | flags::ITALIC | flags::DIM | flags::HIDDEN | flags::WIDE_CHAR) == 0,
    ensures
        (Cell { flags: Flags { bits: cell.flags.bits | mask }, ..cell }).is_empty_spec()
            == cell.is_empty_spec(),
{
    let x = cell.flags.bits;
    assert((x | mask) & (0x0001u16 | 0x0008 | 0x0800 | 0x0200 | 0x0010 | 0x0040 | 0x0400) == x & (
    0x0001u16 | 0x0008 | 0x0800 | 0x0200 | 0x0010 | 0x0040 | 0x0400)) by (bit_vector)
        requires
            mask & !(0x0002u16 | 0x0004 | 0x0080 | 0x0100 | 0x0020) == 0,
    ;
}

/// A cell with any of the emptiness-relevant flags set is not empty,
/// whatever else it holds.
pub proof fn lemma_layout_flags_break_emptiness(cell: Cell)
    requires
        cell.flags.bits & (flags::INVERSE | flags::UNDERLINE | flags::DOUBLE_UNDERLINE
            | flags::STRIKEOUT | flags::WRAPLINE | flags::WIDE_CHAR_SPACER
            | flags::LEADING_WIDE_CHAR_SPACER) != 0,
    ensures
        !cell.is_empty_spec(),
{
}

/// A cell with zero-width characters attached is not empty.
pub proof fn lemma_zerowidth_breaks_emptiness(cell: Cell)
    requires
        zerowidth_of(cell).len() > 0,
    ensures
        !cell.is_empty_spec(),
{
}

} // verus!
