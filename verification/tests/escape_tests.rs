use term_cell::cell::Cell;
use term_cell::color::{Color, NamedColor, Rgb};
use term_cell::flags;
use term_cell::flags::Flags;

fn round_trip(cell: &Cell) -> String {
    let default = Cell::default();
    let mut s = String::new();
    cell.as_escape(&mut s, &default);
    default.as_escape(&mut s, cell);
    s
}

#[test]
fn as_escape_works() {
    let fg_reset = "\x1b[39m";
    let bg_reset = "\x1b[49m";

    // Test color
    let mut cell = Cell::default();
    cell.fg = Color::Indexed(100);
    assert_eq!(round_trip(&cell), format!("{}{}", "\x1b[38;5;100m", fg_reset));

    let mut cell = Cell::default();
    cell.fg = Color::Named(NamedColor::Green);
    assert_eq!(round_trip(&cell), format!("{}{}", "\x1b[32m", fg_reset));

    let mut cell = Cell::default();
    cell.bg = Color::Spec(Rgb { r: 5, g: 10, b: 255 });
    assert_eq!(round_trip(&cell), format!("{}{}", "\x1b[48;2;5;10;255m", bg_reset));

    let bold_reset = "\x1b[22m";

    // Test Bold
    let mut cell = Cell::default();
    cell.flags = Flags::from_bits(flags::BOLD);
    assert_eq!(round_trip(&cell), format!("{}{}", "\x1b[1m", bold_reset));

    // Test Dim
    let mut cell = Cell::default();
    cell.flags = Flags::from_bits(flags::DIM);
    assert_eq!(round_trip(&cell), format!("{}{}", "\x1b[2m", bold_reset));

    // Test Italic
    let mut cell = Cell::default();
    cell.flags = Flags::from_bits(flags::ITALIC);
    assert_eq!(round_trip(&cell), format!("{}{}", "\x1b[3m", "\x1b[23m"));
}

#[test]
fn bold_wins_over_dim_when_both_set() {
    let mut cell = Cell::default();
    cell.flags = Flags::from_bits(flags::DIM_BOLD);
    let mut s = String::new();
    cell.as_escape(&mut s, &Cell::default());
    assert_eq!(s, "\x1b[1m");
}

#[test]
fn italic_code_comes_before_underline_code() {
    let mut cell = Cell::default();
    cell.flags = Flags::from_bits(flags::ITALIC | flags::UNDERLINE);
    let mut s = String::new();
    cell.as_escape(&mut s, &Cell::default());
    assert_eq!(s, "\x1b[3;4m");

    let mut back = String::new();
    Cell::default().as_escape(&mut back, &cell);
    assert_eq!(back, "\x1b[23;24m");
}

#[test]
fn color_and_flag_codes_share_one_sequence() {
    let mut cell = Cell::default();
    cell.fg = Color::Indexed(1);
    cell.flags = Flags::from_bits(flags::UNDERLINE);
    let mut s = String::new();
    cell.as_escape(&mut s, &Cell::default());
    assert_eq!(s, "\x1b[38;5;1;4m");
}

#[test]
fn unchanged_cell_emits_nothing() {
    let mut cell = Cell::default();
    cell.fg = Color::Indexed(100);
    cell.bg = Color::Spec(Rgb { r: 1, g: 2, b: 3 });
    cell.flags = Flags::from_bits(flags::BOLD | flags::STRIKEOUT);
    let mut s = String::new();
    cell.as_escape(&mut s, &cell.clone());
    assert_eq!(s, "");
}

#[test]
fn glyph_differences_alone_emit_nothing() {
    let mut a = Cell::default();
    a.c = 'a';
    let mut b = Cell::default();
    b.c = 'b';
    let mut s = String::new();
    a.as_escape(&mut s, &b);
    assert_eq!(s, "");
}

#[test]
fn named_bright_and_background_colors_encode() {
    let mut cell = Cell::default();
    cell.fg = Color::Named(NamedColor::BrightRed);
    cell.bg = Color::Named(NamedColor::Blue);
    let mut s = String::new();
    cell.as_escape(&mut s, &Cell::default());
    assert_eq!(s, "\x1b[91;44m");
}
