//! The minimal-diff SGR escape encoder: appends the shortest control
//! sequence that moves a terminal's rendering state from one cell's
//! attributes to another's, as a single combined escape sequence.
use vstd::prelude::*;
use vstd::string::StrSliceExecFns;
use vstd::string::StringExecFns;

use crate::cell::Cell;
use crate::color::color_params;
use crate::flags::{self, Flags};

verus! {

/// The semicolon-terminated code that moves the bold/dim pair of
/// attributes, given the target bits `cur` and the changed bits `diff`:
/// nothing when neither changed; the combined bold/dim reset when the
/// target has neither; else the bold-set code when the target is bold
/// (bold takes priority over dim), else the dim-set code.
pub open spec fn bold_dim_params(cur: u16, diff: u16) -> Seq<char> {
    if diff & (flags::BOLD | flags::DIM) == 0 {
        Seq::empty()
    } else if cur & (flags::BOLD | flags::DIM) == 0 {
        seq!['2', '2', ';']
    } else if cur & flags::BOLD != 0 {
        seq!['1', ';']
    } else {
        seq!['2', ';']
    }
}

/// The semicolon-terminated code toggling one independent attribute whose
/// SGR set code is the single digit `code` and whose unset code is `2`
/// followed by that digit: empty when the attribute did not change.
pub open spec fn toggle_params(cur: u16, diff: u16, mask: u16, code: char) -> Seq<char> {
    if diff & mask == 0 {
        Seq::empty()
    } else if cur & mask != 0 {
        seq![code, ';']
    } else {
        seq!['2', code, ';']
    }
}

/// All semicolon-terminated attribute codes that move the flags from
/// `last` to `cur`, in the fixed order bold/dim, italic, underline,
/// inverse, hidden, strikeout.
pub open spec fn flag_params(cur: u16, last: u16) -> Seq<char> {
    let diff = cur ^ last;
    bold_dim_params(cur, diff) + toggle_params(cur, diff, flags::ITALIC, '3') + toggle_params(
        cur,
        diff,
        flags::UNDERLINE,
        '4',
    ) + toggle_params(cur, diff, flags::INVERSE, '7') + toggle_params(cur, diff, flags::HIDDEN, '8')
        + toggle_params(cur, diff, flags::STRIKEOUT, '9')
}

/// Every semicolon-terminated SGR parameter of the transition from `last`
/// to `cell`: foreground color, background color, then attribute codes.
pub open spec fn escape_params(cell: Cell, last: Cell) -> Seq<char> {
    color_params(cell.fg, last.fg, true) + color_params(cell.bg, last.bg, false) + flag_params(
        cell.flags.bits,
        last.flags.bits,
    )
}

/// The full escape sequence of the transition from `last` to `cell`:
/// nothing at all when no parameter is needed, else the CSI introducer,
/// the parameters separated by semicolons, and the SGR terminator in
/// place of the final semicolon.
pub open spec fn escape_of(cell: Cell, last: Cell) -> Seq<char> {
    let p = escape_params(cell, last);
    if p.len() == 0 {
        Seq::empty()
    } else {
        seq!['\u{1b}', '['] + p.subrange(0, p.len() - 1) + seq!['m']
    }
}

/// Append to `buf` the bold/dim code of the transition, if any.
fn push_bold_dim(buf: &mut String, cur: u16, diff: u16)
    ensures
        final(buf)@ == old(buf)@ + bold_dim_params(cur, diff),
{
    if diff & (flags::BOLD | flags::DIM) != 0 {
        if cur & (flags::BOLD | flags::DIM) == 0 {
            proof {
                reveal_strlit("22;");
            }
            buf.append("22;");
        } else if cur & flags::BOLD != 0 {
            proof {
                reveal_strlit("1;");
            }
            buf.append("1;");
        } else {
            proof {
                reveal_strlit("2;");
            }
            buf.append("2;");
        }
    }
    proof {
        assert(buf@ =~= old(buf)@ + bold_dim_params(cur, diff));
    }
}

/// Append to `buf` the italic code of the transition, if any.
fn push_italic(buf: &mut String, cur: u16, diff: u16)
    ensures
        final(buf)@ == old(buf)@ + toggle_params(cur, diff, flags::ITALIC, '3'),
{
    if diff & flags::ITALIC != 0 {
        if cur & flags::ITALIC != 0 {
            proof {
                reveal_strlit("3;");
            }
            buf.append("3;");
        } else {
            proof {
                reveal_strlit("23;");
            }
            buf.append("23;");
        }
    }
    proof {
        assert(buf@ =~= old(buf)@ + toggle_params(cur, diff, flags::ITALIC, '3'));
    }
}

/// Append to `buf` the underline code of the transition, if any.
fn push_underline(buf: &mut String, cur: u16, diff: u16)
    ensures
        final(buf)@ == old(buf)@ + toggle_params(cur, diff, flags::UNDERLINE, '4'),
{
    if diff & flags::UNDERLINE != 0 {
        if cur & flags::UNDERLINE != 0 {
            proof {
                reveal_strlit("4;");
            }
            buf.append("4;");
        } else {
            proof {
                reveal_strlit("24;");
            }
            buf.append("24;");
        }
    }
    proof {
        assert(buf@ =~= old(buf)@ + toggle_params(cur, diff, flags::UNDERLINE, '4'));
    }
}

/// Append to `buf` the inverse code of the transition, if any.
fn push_inverse(buf: &mut String, cur: u16, diff: u16)
    ensures
        final(buf)@ == old(buf)@ + toggle_params(cur, diff, flags::INVERSE, '7'),
{
    if diff & flags::INVERSE != 0 {
        if cur & flags::INVERSE != 0 {
            proof {
                reveal_strlit("7;");
            }
            buf.append("7;");
        } else {
            proof {
                reveal_strlit("27;");
            }
            buf.append("27;");
        }
    }
    proof {
        assert(buf@ =~= old(buf)@ + toggle_params(cur, diff, flags::INVERSE, '7'));
    }
}

/// Append to `buf` the hidden code of the transition, if any.
fn push_hidden(buf: &mut String, cur: u16, diff: u16)
    ensures
        final(buf)@ == old(buf)@ + toggle_params(cur, diff, flags::HIDDEN, '8'),
{
    if diff & flags::HIDDEN != 0 {
        if cur & flags::HIDDEN != 0 {
            proof {
                reveal_strlit("8;");
            }
            buf.append("8;");
        } else {
            proof {
                reveal_strlit("28;");
            }
            buf.append("28;");
        }
    }
    proof {
        assert(buf@ =~= old(buf)@ + toggle_params(cur, diff, flags::HIDDEN, '8'));
    }
}

/// Append to `buf` the strikeout code of the transition, if any.
fn push_strikeout(buf: &mut String, cur: u16, diff: u16)
    ensures
        final(buf)@ == old(buf)@ + toggle_params(cur, diff, flags::STRIKEOUT, '9'),
{
    if diff & flags::STRIKEOUT != 0 {
        if cur & flags::STRIKEOUT != 0 {
            proof {
                reveal_strlit("9;");
            }
            buf.append("9;");
        } else {
            proof {
                reveal_strlit("29;");
            }
            buf.append("29;");
        }
    }
    proof {
        assert(buf@ =~= old(buf)@ + toggle_params(cur, diff, flags::STRIKEOUT, '9'));
    }
}

/// Append to `buf` the attribute codes that move the flags from `last` to
/// `cur`, in the fixed order bold/dim, italic, underline, inverse, hidden,
/// strikeout.
fn push_flag_params(buf: &mut String, cur: Flags, last: Flags)
    ensures
        final(buf)@ == old(buf)@ + flag_params(cur.bits, last.bits),
{
    let diff: u16 = cur.bits ^ last.bits;
    push_bold_dim(buf, cur.bits, diff);
    push_italic(buf, cur.bits, diff);
    push_underline(buf, cur.bits, diff);
    push_inverse(buf, cur.bits, diff);
    push_hidden(buf, cur.bits, diff);
    push_strikeout(buf, cur.bits, diff);
    proof {
        assert(buf@ =~= old(buf)@ + flag_params(cur.bits, last.bits));
    }
}

impl Cell {
    /// Append to `buf` the shortest SGR control sequence that moves a
    /// terminal's rendering state from `last` (the previously emitted
    /// cell) to `self`, as one combined escape sequence; nothing at all is
    /// appended when neither colors nor flags changed.
    pub fn as_escape(&self, buf: &mut String, last: &Cell)
        ensures
            final(buf)@ == old(buf)@ + escape_of(*self, *last),
    {
        let mut params = String::new();
        self.fg.as_escape(&mut params, &last.fg, true);
        self.bg.as_escape(&mut params, &last.bg, false);
        push_flag_params(&mut params, self.flags, last.flags);
        proof {
            assert(params@ =~= escape_params(*self, *last));
        }
        let n = params.as_str().unicode_len();
        if n == 0 {
            proof {
                assert(buf@ =~= buf@ + escape_of(*self, *last));
            }
            return ;
        }
        proof {
            reveal_strlit("\u{1b}[");
            reveal_strlit("m");
        }
        buf.append("\u{1b}[");
        buf.append(params.as_str().substring_char(0, n - 1));
        buf.append("m");
        proof {
            assert(buf@ =~= old(buf)@ + escape_of(*self, *last));
        }
    }
}

/// When the bold/dim pair of attributes changed, exactly one bold/dim
/// code is emitted: the combined reset when the target has neither bold
/// nor dim, else the bold-set code when the target is bold (bold takes
/// priority over dim when both bits are present), else the dim-set code.
pub proof fn lemma_bold_dim_tie_break(cur: u16, last: u16)
    requires
        (cur ^ last) & (flags::BOLD | flags::DIM) != 0,
    ensures
        cur & (flags::BOLD | flags::DIM) == 0 ==> bold_dim_params(cur, cur ^ last) == seq![
            '2',
            '2',
            ';',
        ],
        cur & flags::BOLD != 0 ==> bold_dim_params(cur, cur ^ last) == seq!['1', ';'],
        cur & (flags::BOLD | flags::DIM) != 0 && cur & flags::BOLD == 0 ==> bold_dim_params(
            cur,
            cur ^ last,
        ) == seq!['2', ';'],
{
    assert(cur & 0x0002u16 != 0 ==> cur & (0x0002u16 | 0x0080u16) != 0) by (bit_vector);
}

/// Encoding a transition between two cells with identical colors and
/// identical flags emits nothing at all, whatever else the cells hold.
pub proof fn lemma_escape_no_change(cell: Cell, last: Cell)
    requires
        cell.fg == last.fg,
        cell.bg == last.bg,
        cell.flags == last.flags,
    ensures
        escape_of(cell, last) == Seq::<char>::empty(),
{
    let x = cell.flags.bits;
    assert((x ^ x) & (0x0002u16 | 0x0080u16) == 0 && (x ^ x) & 0x0004u16 == 0 && (x ^ x)
        & 0x0008u16 == 0 && (x ^ x) & 0x0001u16 == 0 && (x ^ x) & 0x0100u16 == 0 && (x ^ x)
        & 0x0200u16 == 0) by (bit_vector);
    assert(escape_params(cell, last) =~= Seq::<char>::empty());
}

/// Applying a cell's own escape transition against itself as the previous
/// state always yields zero emitted bytes.
pub proof fn lemma_escape_idempotent(cell: Cell)
    ensures
        escape_of(cell, cell) == Seq::<char>::empty(),
{
    lemma_escape_no_change(cell, cell);
}

} // verus!
