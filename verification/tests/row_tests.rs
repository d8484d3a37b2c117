use term_cell::cell::{Cell, GridCell};
use term_cell::flags;
use term_cell::flags::Flags;
use term_cell::row::{Column, LineLength, Row};

#[test]
fn line_length_works() {
    let mut row = Row::new(10);
    let mut cell = Cell::default();
    cell.c = 'a';
    row.set(Column(5), cell);

    assert_eq!(row.line_length(), Column(6));
}

#[test]
fn line_length_works_with_wrapline() {
    let mut row = Row::new(10);
    let mut cell = Cell::default();
    cell.flags.insert(flags::WRAPLINE);
    row.set(Column(9), cell);

    assert_eq!(row.line_length(), Column(10));
}

#[test]
fn line_length_of_all_default_row_is_zero() {
    let row = Row::new(10);

    assert_eq!(row.line_length(), Column(0));
}

#[test]
fn line_length_ignores_trailing_bold_spaces() {
    let mut row = Row::new(10);
    let mut cell = Cell::default();
    cell.c = 'x';
    row.set(Column(2), cell);
    let mut bold_space = Cell::default();
    bold_space.flags = Flags::from_bits(flags::BOLD);
    row.set(Column(7), bold_space);

    assert_eq!(row.line_length(), Column(3));
}

#[test]
fn row_get_and_set_work() {
    let mut row = Row::new(4);
    assert_eq!(row.len(), 4);
    let mut cell = Cell::default();
    cell.c = 'q';
    row.set(Column(1), cell.clone());
    assert_eq!(*row.get(Column(1)), cell);
    assert_eq!(*row.get(Column(0)), Cell::default());
}
