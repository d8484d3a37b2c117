//! The color model consumed by the cell: named palette colors, indexed
//! palette colors and direct RGB specs, together with the capability to
//! append the SGR parameters that move a terminal from one color to another.
use vstd::prelude::*;
use vstd::string::StringExecFns;

verus! {

/// A direct RGB color spec.
#[derive(Clone, Copy, Debug, PartialEq, Eq, Structural)]
pub struct Rgb {
    pub r: u8,
    pub g: u8,
    pub b: u8,
}

/// A color of the configurable palette, addressed by name. The default
/// foreground and background are process-wide conventions resolved by an
/// external theme component; here they are opaque comparable values.
#[derive(Clone, Copy, Debug, PartialEq, Eq, Structural)]
pub enum NamedColor {
    Black,
    Red,
    Green,
    Yellow,
    Blue,
    Magenta,
    Cyan,
    White,
    BrightBlack,
    BrightRed,
    BrightGreen,
    BrightYellow,
    BrightBlue,
    BrightMagenta,
    BrightCyan,
    BrightWhite,
    Foreground,
    Background,
}

/// A cell color: a named palette color, an indexed palette color, or a
/// direct RGB spec.
#[derive(Clone, Copy, Debug, PartialEq, Eq, Structural)]
pub enum Color {
    Named(NamedColor),
    Indexed(u8),
    Spec(Rgb),
}

/// The decimal digit `d` as a character, for `d < 10`.
pub open spec fn digit_char(d: nat) -> char {
    if d == 0 {
        '0'
    } else if d == 1 {
        '1'
    } else if d == 2 {
        '2'
    } else if d == 3 {
        '3'
    } else if d == 4 {
        '4'
    } else if d == 5 {
        '5'
    } else if d == 6 {
        '6'
    } else if d == 7 {
        '7'
    } else if d == 8 {
        '8'
    } else {
        '9'
    }
}

/// The decimal digits of `n`, most significant first, without leading
/// zeros (a single `'0'` for zero).
pub open spec fn dec_digits(n: nat) -> Seq<char>
    decreases n,
{
    if n < 10 {
        seq![digit_char(n)]
    } else {
        dec_digits(n / 10) + seq![digit_char(n % 10)]
    }
}

/// The SGR parameter number that selects the named color `n`, in the
/// foreground position when `fg` is true, else in the background position.
/// The named default colors map to the default-color parameter of the
/// position they stand in.
pub open spec fn named_sgr_num(n: NamedColor, fg: bool) -> nat {
    let base: nat = if fg {
        30
    } else {
        40
    };
    let bright_base: nat = if fg {
        90
    } else {
        100
    };
    match n {
        NamedColor::Black => base + 0,
        NamedColor::Red => base + 1,
        NamedColor::Green => base + 2,
        NamedColor::Yellow => base + 3,
        NamedColor::Blue => base + 4,
        NamedColor::Magenta => base + 5,
        NamedColor::Cyan => base + 6,
        NamedColor::White => base + 7,
        NamedColor::BrightBlack => bright_base + 0,
        NamedColor::BrightRed => bright_base + 1,
        NamedColor::BrightGreen => bright_base + 2,
        NamedColor::BrightYellow => bright_base + 3,
        NamedColor::BrightBlue => bright_base + 4,
        NamedColor::BrightMagenta => bright_base + 5,
        NamedColor::BrightCyan => bright_base + 6,
        NamedColor::BrightWhite => bright_base + 7,
        NamedColor::Foreground => if fg {
            39
        } else {
            49
        },
        NamedColor::Background => if fg {
            39
        } else {
            49
        },
    }
}

/// The semicolon-terminated SGR parameters that move the color of one
/// position (foreground when `fg`, else background) from `last` to `c`:
/// empty when the color is unchanged.
pub open spec fn color_params(c: Color, last: Color, fg: bool) -> Seq<char> {
    if c == last {
        Seq::empty()
    } else {
        match c {
            Color::Named(n) => dec_digits(named_sgr_num(n, fg)) + seq![';'],
            Color::Indexed(i) => {
                let prefix = if fg {
                    seq!['3', '8', ';', '5', ';']
                } else {
                    seq!['4', '8', ';', '5', ';']
                };
                prefix + dec_digits(i as nat) + seq![';']
            },
            Color::Spec(rgb) => {
                let prefix = if fg {
                    seq!['3', '8', ';', '2', ';']
                } else {
                    seq!['4', '8', ';', '2', ';']
                };
                prefix + dec_digits(rgb.r as nat) + seq![';'] + dec_digits(rgb.g as nat)
                    + seq![';'] + dec_digits(rgb.b as nat) + seq![';']
            },
        }
    }
}

/// Append the single decimal digit `d` to `buf`.
fn push_digit(buf: &mut String, d: u8)
    requires
        d < 10,
    ensures
        final(buf)@ == old(buf)@ + seq![digit_char(d as nat)],
{
    proof {
        reveal_strlit("0");
        reveal_strlit("1");
        reveal_strlit("2");
        reveal_strlit("3");
        reveal_strlit("4");
        reveal_strlit("5");
        reveal_strlit("6");
        reveal_strlit("7");
        reveal_strlit("8");
        reveal_strlit("9");
    }
    if d == 0 {
        buf.append("0");
    } else if d == 1 {
        buf.append("1");
    } else if d == 2 {
        buf.append("2");
    } else if d == 3 {
        buf.append("3");
    } else if d == 4 {
        buf.append("4");
    } else if d == 5 {
        buf.append("5");
    } else if d == 6 {
        buf.append("6");
    } else if d == 7 {
        buf.append("7");
    } else if d == 8 {
        buf.append("8");
    } else {
        buf.append("9");
    }
    proof {
        assert(buf@ =~= old(buf)@ + seq![digit_char(d as nat)]);
    }
}

/// Append the decimal digits of `n` to `buf`, most significant first.
fn push_dec(buf: &mut String, n: u8)
    ensures
        final(buf)@ == old(buf)@ + dec_digits(n as nat),
    decreases n,
{
    if n < 10 {
        push_digit(buf, n);
    } else {
        assert(n / 10 < n && n / 10 >= 1) by (nonlinear_arith)
            requires
                n >= 10,
        ;
        push_dec(buf, n / 10);
        push_digit(buf, n % 10);
        proof {
            assert(buf@ =~= old(buf)@ + dec_digits(n as nat));
        }
    }
}

/// Append a single trailing semicolon to `buf`.
fn push_semi(buf: &mut String)
    ensures
        final(buf)@ == old(buf)@ + seq![';'],
{
    proof {
        reveal_strlit(";");
    }
    buf.append(";");
    proof {
        assert(buf@ =~= old(buf)@ + seq![';']);
    }
}

impl NamedColor {
    /// The SGR parameter number selecting this named color in the
    /// foreground position when `fg` is true, else in the background
    /// position.
    pub fn sgr_num(self, fg: bool) -> (r: u8)
        ensures
            r as nat == named_sgr_num(self, fg),
    {
        let base: u8 = if fg {
            30
        } else {
            40
        };
        let bright_base: u8 = if fg {
            90
        } else {
            100
        };
        match self {
            NamedColor::Black => base,
            NamedColor::Red => base + 1,
            NamedColor::Green => base + 2,
            NamedColor::Yellow => base + 3,
            NamedColor::Blue => base + 4,
            NamedColor::Magenta => base + 5,
            NamedColor::Cyan => base + 6,
            NamedColor::White => base + 7,
            NamedColor::BrightBlack => bright_base,
            NamedColor::BrightRed => bright_base + 1,
            NamedColor::BrightGreen => bright_base + 2,
            NamedColor::BrightYellow => bright_base + 3,
            NamedColor::BrightBlue => bright_base + 4,
            NamedColor::BrightMagenta => bright_base + 5,
            NamedColor::BrightCyan => bright_base + 6,
            NamedColor::BrightWhite => bright_base + 7,
            NamedColor::Foreground => if fg {
                39
            } else {
                49
            },
            NamedColor::Background => if fg {
                39
            } else {
                49
            },
        }
    }
}

impl Color {
    /// Append to `buf` the semicolon-terminated SGR parameters that move
    /// the color of one position (foreground when `fg`, else background)
    /// from `last` to `self`; nothing when the color is unchanged.
    pub fn as_escape(&self, buf: &mut String, last: &Color, fg: bool)
        ensures
            final(buf)@ == old(buf)@ + color_params(*self, *last, fg),
    {
        if *self == *last {
            proof {
                assert(buf@ =~= buf@ + color_params(*self, *last, fg));
            }
            return ;
        }
        proof {
            reveal_strlit("38;5;");
            reveal_strlit("48;5;");
            reveal_strlit("38;2;");
            reveal_strlit("48;2;");
        }
        match *self {
            Color::Named(n) => {
                let num = n.sgr_num(fg);
                push_dec(buf, num);
                push_semi(buf);
            },
            Color::Indexed(i) => {
                if fg {
                    buf.append("38;5;");
                    proof {
                        assert(buf@ =~= old(buf)@ + seq!['3', '8', ';', '5', ';']);
                    }
                } else {
                    buf.append("48;5;");
                    proof {
                        assert(buf@ =~= old(buf)@ + seq!['4', '8', ';', '5', ';']);
                    }
                }
                push_dec(buf, i);
                push_semi(buf);
            },
            Color::Spec(rgb) => {
                if fg {
                    buf.append("38;2;");
                    proof {
                        assert(buf@ =~= old(buf)@ + seq!['3', '8', ';', '2', ';']);
                    }
                } else {
                    buf.append("48;2;");
                    proof {
                        assert(buf@ =~= old(buf)@ + seq!['4', '8', ';', '2', ';']);
                    }
                }
                push_dec(buf, rgb.r);
                push_semi(buf);
                push_dec(buf, rgb.g);
                push_semi(buf);
                push_dec(buf, rgb.b);
                push_semi(buf);
            },
        }
        proof {
            assert(buf@ =~= old(buf)@ + color_params(*self, *last, fg));
        }
    }
}

} // verus!
