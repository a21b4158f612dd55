//! The playfield: a torus of cells that programs read, execute and rewrite.

use vstd::prelude::*;
use crate::address::{cell_index, wrap, Addr, CELLS, HEIGHT, WIDTH};

verus! {

/// The value of a cell that nothing was written to: the code of a space.
pub const BLANK: i64 = 32;

/// The playfield that holds only blanks.
pub open spec fn blank_cells() -> Seq<i64> {
    Seq::new(CELLS as nat, |i: int| BLANK)
}

/// The cells of the playfield, row by row.
pub struct Grid {
    cells: Vec<i64>,
}

impl View for Grid {
    type V = Seq<i64>;

    closed spec fn view(&self) -> Seq<i64> {
        self.cells@
    }
}

impl Grid {
    #[verifier::type_invariant]
    spec fn full(self) -> bool {
        self.cells@.len() == CELLS
    }

    /// The value of the cell that the coordinates denote on the torus.
    pub open spec fn at(&self, col: int, row: int) -> i64 {
        self@[cell_index(col, row)]
    }

    /// A playfield of blanks.
    pub fn new() -> (g: Grid)
        ensures
            g@ == blank_cells(),
    {
        let mut cells: Vec<i64> = Vec::new();
        let mut i: usize = 0;
        while i < CELLS
            invariant
                i <= CELLS,
                cells@.len() == i,
                forall|k: int| 0 <= k < i ==> cells@[k] == BLANK,
            decreases CELLS - i,
        {
            cells.push(BLANK);
            i += 1;
        }
        assert(cells@ =~= blank_cells());
        Grid { cells }
    }

    /// Index into the row-major cells of the cell that `a` denotes.
    fn slot(a: Addr) -> (i: usize)
        ensures
            i == a.cell(),
            i < CELLS,
    {
        let row: i64 = wrap(a.1, HEIGHT);
        let col: i64 = wrap(a.0, WIDTH);
        assert(row * WIDTH + col < 2000) by (nonlinear_arith)
            requires
                0 <= row < 25,
                0 <= col < 80,
                WIDTH == 80,
        ;
        assert(0 <= row * WIDTH) by (nonlinear_arith)
            requires
                0 <= row,
                WIDTH == 80,
        ;
        (row * WIDTH + col) as usize
    }

    /// Reads the cell that `a` denotes, both coordinates reduced by floor-modulo.
    pub fn fetch(&self, a: Addr) -> (v: i64)
        ensures
            v == self@[a.cell()],
            v == self.at(a.0 as int, a.1 as int),
            self@.len() == CELLS,
    {
        proof {
            use_type_invariant(self);
        }
        let i: usize = Grid::slot(a);
        self.cells[i]
    }

    /// Writes the cell that `a` denotes, both coordinates reduced by floor-modulo.
    pub fn put(&mut self, a: Addr, v: i64)
        ensures
            final(self)@ == old(self)@.update(a.cell(), v),
            final(self)@.len() == CELLS,
    {
        proof {
            use_type_invariant(&*self);
        }
        let i: usize = Grid::slot(a);
        self.cells[i] = v;
    }
}

} // verus!
