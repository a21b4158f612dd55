//! How source text is laid onto the playfield, and how labels are found in it.
//!
//! The text is placed byte by byte, row-major. A line feed starts a new row,
//! and so does a byte that follows the last column. In the same pass each
//! `{name}` records `name` with the address of the cell east of its `}`.

use vstd::prelude::*;
use crate::address::{Addr, WIDTH};
use crate::grid::blank_cells;
use crate::machine::Machine;

verus! {

/// The byte that ends a row.
pub const LINE_FEED: u8 = 10;

/// The byte that opens a label: `{`.
pub const OPEN_BRACE: u8 = 123;

/// The byte that closes a label: `}`.
pub const CLOSE_BRACE: u8 = 125;

/// The state of the loader between two bytes.
pub struct Loader {
    /// The cells of the playfield, row by row.
    pub cells: Seq<i64>,
    /// The labels recorded so far.
    pub symbols: Map<Seq<char>, Addr>,
    /// Column of the next byte, `WIDTH` after the last column was written.
    pub col: int,
    /// Row of the next byte.
    pub row: int,
    /// The name of the label that is being read, if one is.
    pub label: Option<Seq<char>>,
}

impl Loader {
    /// The loader before the first byte.
    pub open spec fn start() -> Loader {
        Loader { cells: blank_cells(), symbols: Map::empty(), col: 0, row: 0, label: None }
    }

    /// The loader at the start of the next row; a label that was being read is given up.
    pub open spec fn new_row(self) -> Loader {
        Loader { col: 0, row: self.row + 1, label: None, ..self }
    }

    /// What a byte other than a line feed does to the label state, the byte
    /// standing at `(self.col, self.row)`.
    pub open spec fn scan(self, b: u8) -> Loader {
        match self.label {
            None => if b == OPEN_BRACE {
                Loader { label: Some(Seq::empty()), ..self }
            } else {
                self
            },
            Some(name) => if b == CLOSE_BRACE {
                Loader {
                    symbols: self.symbols.insert(
                        name,
                        Addr((self.col + 1) as i64, self.row as i64),
                    ),
                    label: None,
                    ..self
                }
            } else {
                Loader { label: Some(name.push(b as char)), ..self }
            },
        }
    }

    /// Writes `b` at the loader's position and moves one column on.
    pub open spec fn place(self, b: u8) -> Loader {
        let marked = self.scan(b);
        Loader {
            cells: self.cells.update(crate::address::cell_index(self.col, self.row), b as i64),
            col: self.col + 1,
            ..marked
        }
    }

    /// The loader after the byte `b`.
    pub open spec fn feed(self, b: u8) -> Loader {
        if b == LINE_FEED {
            self.new_row()
        } else if self.col >= WIDTH {
            self.new_row().place(b)
        } else {
            self.place(b)
        }
    }

    /// The loader after all of `bytes`, in order.
    pub open spec fn feed_all(self, bytes: Seq<u8>) -> Loader
        decreases bytes.len(),
    {
        if bytes.len() == 0 {
            self
        } else {
            self.feed_all(bytes.drop_last()).feed(bytes.last())
        }
    }
}

/// The machine that loading `bytes` gives: the text on the playfield, its
/// labels in the symbol table, everything else as in a new machine.
pub open spec fn loaded(bytes: Seq<u8>) -> Machine {
    let l = Loader::start().feed_all(bytes);
    Machine { cells: l.cells, symbols: l.symbols, ..Machine::initial() }
}

} // verus!
