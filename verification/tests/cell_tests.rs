use term_cell::cell::{Cell, GridCell, ResetDiscriminant};
use term_cell::color::{Color, NamedColor};
use term_cell::flags;
use term_cell::flags::Flags;

#[test]
fn default_cell_is_empty() {
    assert!(Cell::default().is_empty());
    let cell = Cell::default();
    assert_eq!(cell.c, ' ');
    assert_eq!(cell.fg, Color::Named(NamedColor::Foreground));
    assert_eq!(cell.bg, Color::Named(NamedColor::Background));
    assert!(cell.flags.is_empty());
    assert!(cell.zerowidth().is_none());
}

#[test]
fn style_flags_do_not_affect_emptiness() {
    for mask in [flags::BOLD, flags::ITALIC, flags::DIM, flags::HIDDEN, flags::WIDE_CHAR] {
        let mut cell = Cell::default();
        cell.flags = Flags::from_bits(mask);
        assert!(cell.is_empty());
    }
    let mut cell = Cell::default();
    cell.flags = Flags::from_bits(
        flags::BOLD | flags::ITALIC | flags::DIM | flags::HIDDEN | flags::WIDE_CHAR,
    );
    assert!(cell.is_empty());
}

#[test]
fn layout_flags_break_emptiness() {
    for mask in [
        flags::INVERSE,
        flags::UNDERLINE,
        flags::DOUBLE_UNDERLINE,
        flags::STRIKEOUT,
        flags::WRAPLINE,
        flags::WIDE_CHAR_SPACER,
        flags::LEADING_WIDE_CHAR_SPACER,
    ] {
        let mut cell = Cell::default();
        cell.flags = Flags::from_bits(mask);
        assert!(!cell.is_empty());
    }
}

#[test]
fn glyphs_and_colors_affect_emptiness() {
    let mut cell = Cell::default();
    cell.c = '\t';
    assert!(cell.is_empty());
    cell.c = 'a';
    assert!(!cell.is_empty());

    let mut cell = Cell::default();
    cell.fg = Color::Named(NamedColor::Green);
    assert!(!cell.is_empty());

    let mut cell = Cell::default();
    cell.bg = Color::Indexed(3);
    assert!(!cell.is_empty());
}

#[test]
fn zerowidth_cells_are_not_empty() {
    let mut cell = Cell::default();
    cell.push_zerowidth('\u{0301}');
    assert!(!cell.is_empty());
}

#[test]
fn zerowidth_returns_pushed_characters_in_order() {
    let mut cell = Cell::default();
    assert!(cell.zerowidth().is_none());
    cell.push_zerowidth('a');
    cell.push_zerowidth('b');
    cell.push_zerowidth('c');
    assert_eq!(cell.zerowidth(), Some(&['a', 'b', 'c'][..]));
}

#[test]
fn drop_extra_restores_structural_equality() {
    let mut cell = Cell::default();
    cell.c = 'x';
    let pristine = cell.clone();
    cell.push_zerowidth('\u{0301}');
    assert_ne!(cell, pristine);
    cell.drop_extra();
    assert!(cell.zerowidth().is_none());
    assert_eq!(cell, pristine);
    // A second call changes nothing further.
    cell.drop_extra();
    assert_eq!(cell, pristine);
}

#[test]
fn reset_yields_default_with_template_background() {
    let mut cell = Cell::default();
    cell.c = 'z';
    cell.fg = Color::Indexed(7);
    cell.flags = Flags::from_bits(flags::BOLD | flags::UNDERLINE);
    cell.push_zerowidth('\u{0308}');

    let mut template = Cell::default();
    template.bg = Color::Indexed(3);
    template.c = 'q';
    template.flags = Flags::from_bits(flags::ITALIC);

    cell.reset(&template);

    let mut expected = Cell::default();
    expected.bg = Color::Indexed(3);
    assert_eq!(cell, expected);
    assert!(cell.zerowidth().is_none());
}

#[test]
fn cell_from_color_fills_background() {
    let cell = Cell::from(Color::Indexed(7));
    let mut expected = Cell::default();
    expected.bg = Color::Indexed(7);
    assert_eq!(cell, expected);
}

#[test]
fn discriminant_of_cell_is_its_background() {
    let mut cell = Cell::default();
    cell.bg = Color::Indexed(11);
    cell.fg = Color::Indexed(12);
    let d: Color = cell.discriminant();
    assert_eq!(d, Color::Indexed(11));
}

#[test]
fn discriminant_of_copyable_value_is_identity() {
    let n: usize = 17;
    let d: usize = n.discriminant();
    assert_eq!(d, 17);
    let c = Color::Indexed(4);
    let d: Color = c.discriminant();
    assert_eq!(d, Color::Indexed(4));
}

#[test]
fn flags_and_flags_mut_expose_the_bitset() {
    let mut cell = Cell::default();
    assert!(cell.flags().is_empty());
    cell.flags_mut().insert(flags::WIDE_CHAR);
    assert!(cell.flags().contains(flags::WIDE_CHAR));
    assert!(!cell.flags().contains(flags::BOLD));
}

#[test]
fn flag_set_operations_work() {
    let mut f = Flags::empty();
    assert!(f.is_empty());
    f.insert(flags::BOLD);
    f.insert(flags::ITALIC);
    assert_eq!(f, Flags::from_bits(flags::BOLD_ITALIC));
    assert!(f.contains(flags::BOLD));
    assert!(f.intersects(flags::BOLD | flags::DIM));
    f.remove(flags::BOLD);
    assert_eq!(f, Flags::from_bits(flags::ITALIC));
    f.toggle(flags::DIM | flags::ITALIC);
    assert_eq!(f, Flags::from_bits(flags::DIM));

    let dim_bold = Flags::from_bits(flags::DIM).union(Flags::from_bits(flags::BOLD));
    assert_eq!(dim_bold, Flags::from_bits(flags::DIM_BOLD));
    assert_eq!(
        dim_bold.intersection(Flags::from_bits(flags::BOLD)),
        Flags::from_bits(flags::BOLD)
    );
    assert_eq!(
        dim_bold.symmetric_difference(Flags::from_bits(flags::BOLD)),
        Flags::from_bits(flags::DIM)
    );
}
