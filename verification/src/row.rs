//! A row of cells as the grid stores it, and the occupied-length
//! computation over it.
use vstd::prelude::*;

use crate::cell::{Cell, GridCell};
use crate::flags;
use vstd::pervasive::VecAdditionalExecFns;

verus! {

/// A column index into a row.
#[derive(Clone, Copy, Debug, PartialEq, Eq, Structural)]
pub struct Column(pub usize);

/// An ordered, fixed-length sequence of cells, owned by the grid; this
/// core consumes it through indexing and length queries.
#[derive(Debug, Clone)]
pub struct Row {
    cells: Vec<Cell>,
}

impl View for Row {
    type V = Seq<Cell>;

    closed spec fn view(&self) -> Seq<Cell> {
        self.cells@
    }
}

impl Row {
    /// A row of `cols` default cells.
    pub fn new(cols: usize) -> (r: Row)
        ensures
            r@.len() == cols,
            forall|i: int| 0 <= i < cols ==> r@[i] == Cell::default_spec(),
    {
        let mut cells: Vec<Cell> = Vec::new();
        let mut n: usize = 0;
        while n < cols
            invariant
                n <= cols,
                cells@.len() == n,
                forall|i: int| 0 <= i < n ==> cells@[i] == Cell::default_spec(),
            decreases cols - n,
        {
            cells.push(Cell::default());
            n = n + 1;
        }
        Row { cells }
    }

    /// The number of columns in the row.
    pub fn len(&self) -> (r: usize)
        ensures
            r == self@.len(),
    {
        self.cells.len()
    }

    /// The cell at the given column.
    pub fn get(&self, index: Column) -> (r: &Cell)
        requires
            index.0 < self@.len(),
        ensures
            *r == self@[index.0 as int],
    {
        &self.cells[index.0]
    }

    /// Replace the cell at the given column.
    pub fn set(&mut self, index: Column, cell: Cell)
        requires
            index.0 < old(self)@.len(),
        ensures
            final(self)@ == old(self)@.update(index.0 as int, cell),
    {
        self.cells.set(index.0, cell);
    }
}

/// The occupied length of `cells` ignoring any wrapline mark: the length
/// with the longest run of trailing empty cells removed.
pub open spec fn occupied_len(cells: Seq<Cell>) -> nat
    decreases cells.len(),
{
    if cells.len() == 0 {
        0
    } else if !cells.last().is_empty_spec() {
        cells.len()
    } else {
        occupied_len(cells.drop_last())
    }
}

/// The occupied length of a full row: every column when the last cell
/// carries the wrapline mark (the wrap itself is meaningful content), and
/// otherwise the length without the trailing run of empty cells.
pub open spec fn line_length_spec(cells: Seq<Cell>) -> nat {
    if cells.last().flags.bits & flags::WRAPLINE != 0 {
        cells.len()
    } else {
        occupied_len(cells)
    }
}

/// Trailing empty cells do not contribute to the occupied length: as long
/// as every cell at and after position `n` is empty, the occupied length
/// of the whole equals that of the first `n` cells.
proof fn lemma_occupied_len_drop_trailing(cells: Seq<Cell>, n: int)
    requires
        0 <= n <= cells.len(),
        forall|j: int| n <= j < cells.len() ==> cells[j].is_empty_spec(),
    ensures
        occupied_len(cells) == occupied_len(cells.take(n)),
    decreases cells.len() - n,
{
    if n == cells.len() {
        assert(cells.take(n) =~= cells);
    } else {
        assert(cells.last().is_empty_spec());
        assert(cells.drop_last() =~= cells.take(cells.len() - 1));
        lemma_occupied_len_drop_trailing(cells.take(cells.len() - 1), n);
        assert(cells.take(cells.len() - 1).take(n) =~= cells.take(n));
    }
}

/// Get the length of occupied cells in a line.
pub trait LineLength {
    /// The cells of the line.
    spec fn cells_of(&self) -> Seq<Cell>;

    /// Calculate the occupied line length.
    fn line_length(&self) -> (r: Column)
        requires
            self.cells_of().len() >= 1,
        ensures
            r.0 == line_length_spec(self.cells_of()),
    ;
}

impl LineLength for Row {
    open spec fn cells_of(&self) -> Seq<Cell> {
        self@
    }

    fn line_length(&self) -> (r: Column) {
        let n = self.cells.len();
        let last_bits = self.cells[n - 1].flags.bits;
        proof {
            assert((last_bits & 0x0010u16 == 0x0010u16) == (last_bits & 0x0010u16 != 0u16))
                by (bit_vector);
        }
        if self.cells[n - 1].flags.contains(flags::WRAPLINE) {
            return Column(n);
        }
        proof {
            assert(self@.last().flags.bits & flags::WRAPLINE == 0);
        }
        let mut i: usize = n;
        while i > 0
            invariant
                i <= n,
                n == self@.len(),
                n >= 1,
                self@.last().flags.bits & flags::WRAPLINE == 0,
                forall|j: int| i <= j < n ==> self@[j].is_empty_spec(),
            decreases i,
        {
            if !self.cells[i - 1].is_empty() {
                proof {
                    lemma_occupied_len_drop_trailing(self@, i as int);
                    assert(self@.take(i as int).last() == self@[i - 1]);
                    assert(occupied_len(self@.take(i as int)) == i);
                }
                return Column(i);
            }
            i = i - 1;
        }
        proof {
            lemma_occupied_len_drop_trailing(self@, 0);
            assert(self@.take(0) =~= Seq::<Cell>::empty());
        }
        Column(0)
    }
}

} // verus!
