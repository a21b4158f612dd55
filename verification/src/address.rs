//! Addresses on the playfield and the four directions of travel.
//!
//! An address is an unbounded pair of coordinates; it is reduced onto the
//! torus only when a cell is read or written.

use vstd::prelude::*;

verus! {

/// Number of columns of the playfield.
pub const WIDTH: i64 = 80;

/// Number of rows of the playfield.
pub const HEIGHT: i64 = 25;

/// Number of cells of the playfield.
pub const CELLS: usize = 2000;

/// A direction of travel.
#[derive(Debug, Clone, Copy, PartialEq, Eq, Structural)]
pub enum Delta {
    N,
    S,
    E,
    W,
}

/// A position `(column, row)`, not reduced onto the torus.
#[derive(Debug, Clone, Copy, PartialEq, Eq, Structural)]
pub struct Addr(pub i64, pub i64);

/// The remainder of `x` by `n` that is never negative.
pub open spec fn floor_mod(x: int, n: int) -> int {
    x % n
}

/// Row-major index of the cell that the coordinates denote on the torus.
pub open spec fn cell_index(col: int, row: int) -> int {
    floor_mod(row, HEIGHT as int) * (WIDTH as int) + floor_mod(col, WIDTH as int)
}

impl Delta {
    /// Change of the column for one step in this direction.
    pub open spec fn dx(self) -> int {
        match self {
            Delta::E => 1,
            Delta::W => -1,
            _ => 0,
        }
    }

    /// Change of the row for one step in this direction.
    pub open spec fn dy(self) -> int {
        match self {
            Delta::S => 1,
            Delta::N => -1,
            _ => 0,
        }
    }

    /// Number of steps in this direction after which the same cell is reached again.
    pub open spec fn lap(self) -> int {
        match self {
            Delta::E | Delta::W => WIDTH as int,
            _ => HEIGHT as int,
        }
    }

    /// The direction that an arrow character sets, if `c` is one.
    pub open spec fn of_char(c: char) -> Option<Delta> {
        if c == '^' {
            Some(Delta::N)
        } else if c == 'v' {
            Some(Delta::S)
        } else if c == '>' {
            Some(Delta::E)
        } else if c == '<' {
            Some(Delta::W)
        } else {
            None
        }
    }

    /// The direction numbered `n`, counting north, south, east, west from zero.
    pub open spec fn of_index(n: int) -> Delta {
        if n == 0 {
            Delta::N
        } else if n == 1 {
            Delta::S
        } else if n == 2 {
            Delta::E
        } else {
            Delta::W
        }
    }

    /// The number of this direction, the inverse of `of_index`.
    pub open spec fn index(self) -> int {
        match self {
            Delta::N => 0,
            Delta::S => 1,
            Delta::E => 2,
            Delta::W => 3,
        }
    }

    /// Reads an arrow character.
    pub fn from_char(c: char) -> (r: Option<Delta>)
        ensures
            r == Delta::of_char(c),
    {
        match c {
            '^' => Some(Delta::N),
            'v' => Some(Delta::S),
            '>' => Some(Delta::E),
            '<' => Some(Delta::W),
            _ => None,
        }
    }

    /// Turns a number below four into a direction.
    pub fn from_index(n: u32) -> (r: Delta)
        requires
            n < 4,
        ensures
            r == Delta::of_index(n as int),
            r.index() == n,
    {
        if n == 0 {
            Delta::N
        } else if n == 1 {
            Delta::S
        } else if n == 2 {
            Delta::E
        } else {
            Delta::W
        }
    }

    /// Number of steps after which travel in this direction comes back to its start.
    pub fn lap_len(self) -> (r: i64)
        ensures
            r == self.lap(),
    {
        match self {
            Delta::E | Delta::W => WIDTH,
            _ => HEIGHT,
        }
    }
}

impl Addr {
    /// Column of the address `n` steps further in direction `d`.
    pub open spec fn col_after(self, d: Delta, n: int) -> int {
        match d {
            Delta::E => self.0 + n,
            Delta::W => self.0 - n,
            _ => self.0 as int,
        }
    }

    /// Row of the address `n` steps further in direction `d`.
    pub open spec fn row_after(self, d: Delta, n: int) -> int {
        match d {
            Delta::S => self.1 + n,
            Delta::N => self.1 - n,
            _ => self.1 as int,
        }
    }

    /// Whether the address `n` steps further in direction `d` can be represented.
    pub open spec fn reaches(self, d: Delta, n: int) -> bool {
        &&& i64::MIN <= self.col_after(d, n) <= i64::MAX
        &&& i64::MIN <= self.row_after(d, n) <= i64::MAX
    }

    /// The address `n` steps further in direction `d`.
    pub open spec fn moved(self, d: Delta, n: int) -> Addr {
        Addr(self.col_after(d, n) as i64, self.row_after(d, n) as i64)
    }

    /// Index of the cell that this address denotes.
    pub open spec fn cell(self) -> int {
        cell_index(self.0 as int, self.1 as int)
    }

    /// One step in direction `d`. Pure address arithmetic: nothing wraps here.
    pub fn add(self, d: Delta) -> (r: Addr)
        requires
            self.reaches(d, 1),
        ensures
            r == self.moved(d, 1),
    {
        match d {
            Delta::N => Addr(self.0, self.1 - 1),
            Delta::S => Addr(self.0, self.1 + 1),
            Delta::E => Addr(self.0 + 1, self.1),
            Delta::W => Addr(self.0 - 1, self.1),
        }
    }

    /// `n` steps in direction `d`, or `None` where a coordinate would leave the
    /// range of the machine's integers.
    pub fn shifted(self, d: Delta, n: i64) -> (r: Option<Addr>)
        requires
            0 <= n,
        ensures
            r == (if self.reaches(d, n as int) {
                Some(self.moved(d, n as int))
            } else {
                None
            }),
    {
        match d {
            Delta::N => match self.1.checked_sub(n) {
                Some(y) => Some(Addr(self.0, y)),
                None => None,
            },
            Delta::S => match self.1.checked_add(n) {
                Some(y) => Some(Addr(self.0, y)),
                None => None,
            },
            Delta::E => match self.0.checked_add(n) {
                Some(x) => Some(Addr(x, self.1)),
                None => None,
            },
            Delta::W => match self.0.checked_sub(n) {
                Some(x) => Some(Addr(x, self.1)),
                None => None,
            },
        }
    }
}

/// Reduces a coordinate onto `0 .. n` by floor-modulo.
pub fn wrap(x: i64, n: i64) -> (r: i64)
    requires
        n > 0,
    ensures
        r == floor_mod(x as int, n as int),
        0 <= r < n,
{
    if x >= 0 {
        x % n
    } else {
        let k: i64 = -(x + 1);
        let m: i64 = k % n;
        proof {
            let q = k as int / n as int;
            vstd::arithmetic::div_mod::lemma_fundamental_div_mod(k as int, n as int);
            assert(x as int == (-q - 1) * n as int + (n as int - 1 - m as int))
                by (nonlinear_arith)
                requires
                    k as int == n as int * q + m as int,
                    k as int == -(x as int + 1),
            ;
            vstd::arithmetic::div_mod::lemma_fundamental_div_mod_converse(
                x as int,
                n as int,
                -q - 1,
                n as int - 1 - m as int,
            );
        }
        n - 1 - m
    }
}

/// The character that a cell of value `v` shows: the one whose code is the
/// low eight bits of `v`.
pub open spec fn glyph(v: i64) -> char {
    floor_mod(v as int, 256) as char
}

/// Computes the character that a cell of value `v` shows.
pub fn glyph_of(v: i64) -> (c: char)
    ensures
        c == glyph(v),
        (c as int) < 256,
{
    let m: i64 = wrap(v, 256);
    let b: u8 = m as u8;
    b as char
}

} // verus!
