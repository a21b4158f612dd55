//! The machine as a mathematical value, and what one step does to it.
//!
//! Everything here is specification: the executable machine is held to it.

use vstd::prelude::*;
use crate::address::{glyph, Addr, Delta, CELLS};
use crate::grid::blank_cells;
use crate::number::decimal;

verus! {

/// A condition under which the machine cannot go on.
#[derive(Debug, Clone, Copy, PartialEq, Eq, Structural)]
pub enum Fault {
    /// Division or remainder by zero.
    DivideByZero,
    /// The result of an operation is no 64-bit integer.
    Overflow,
    /// The instruction pointer would leave the range of 64-bit coordinates.
    OutOfRange,
    /// A label reference that no `]` closes on its line of travel.
    OpenLabel,
    /// The line given to `&` is no decimal integer.
    BadNumber,
    /// The line given in answer to a request is empty.
    NoInput,
}

/// What a step asks of the host, as a mathematical value.
pub enum Signal {
    /// Nothing: go on with the next step.
    Continue,
    /// Print the number in decimal.
    PrintNumber(i64),
    /// Print the character with this code.
    PrintChar(char),
    /// Read a line and deliver it as a number.
    ReadNumber,
    /// Read a line and deliver its first character.
    ReadChar,
    /// An unknown opcode at an address: ask whether to proceed.
    Interrupt(char, Addr),
    /// The answer was neither yes nor no: ask again.
    Ask,
    /// A reference to a label that the symbol table lacks; the machine halts.
    NoSuchSymbol(Seq<char>),
    /// The machine halts.
    Halt,
    /// The machine cannot go on.
    Fault(Fault),
}

/// The `k`-th value from the top of a stack, zero where the stack is too short.
pub open spec fn top(s: Seq<i64>, k: int) -> i64 {
    if 0 <= k < s.len() {
        s[s.len() - 1 - k]
    } else {
        0
    }
}

/// The stack without its top `k` values, empty where it holds no more than `k`.
pub open spec fn below(s: Seq<i64>, k: int) -> Seq<i64> {
    if k <= 0 {
        s
    } else if k < s.len() {
        s.take(s.len() - k)
    } else {
        Seq::empty()
    }
}

/// Whether `v` is a 64-bit integer.
pub open spec fn fits(v: int) -> bool {
    i64::MIN <= v <= i64::MAX
}

/// The quotient rounded towards zero.
pub open spec fn trunc_div(x: int, y: int) -> int {
    if x >= 0 && y > 0 {
        x / y
    } else if x < 0 && y < 0 {
        (-x) / (-y)
    } else if x < 0 {
        -((-x) / y)
    } else {
        -(x / (-y))
    }
}

/// The remainder that goes with `trunc_div`: it has the sign of the dividend.
pub open spec fn trunc_rem(x: int, y: int) -> int {
    if x >= 0 && y > 0 {
        x % y
    } else if x < 0 && y < 0 {
        -((-x) % (-y))
    } else if x < 0 {
        -((-x) % y)
    } else {
        x % (-y)
    }
}

/// The value of a hexadecimal digit in lower case, if `op` is one.
pub open spec fn hex_value(op: char) -> Option<i64> {
    if '0' <= op <= '9' {
        Some((op as int - '0' as int) as i64)
    } else if 'a' <= op <= 'f' {
        Some((op as int - 'a' as int + 10) as i64)
    } else {
        None
    }
}

/// The state of the machine.
pub struct Machine {
    /// The operand stack, its top last.
    pub stack: Seq<i64>,
    /// The cells of the playfield, row by row.
    pub cells: Seq<i64>,
    /// The instruction pointer.
    pub pc: Addr,
    /// The direction of travel.
    pub delta: Delta,
    /// The labels, by name.
    pub symbols: Map<Seq<char>, Addr>,
}

impl Machine {
    /// The machine before anything is loaded: a blank playfield, an empty
    /// stack, no labels, the pointer at the origin and heading east.
    pub open spec fn initial() -> Machine {
        Machine {
            stack: Seq::empty(),
            cells: blank_cells(),
            pc: Addr(0, 0),
            delta: Delta::E,
            symbols: Map::empty(),
        }
    }

    /// Whether the playfield has all its cells.
    pub open spec fn wf(self) -> bool {
        self.cells.len() == CELLS
    }

    /// This machine with another stack.
    pub open spec fn with_stack(self, stack: Seq<i64>) -> Machine {
        Machine { stack, ..self }
    }

    /// This machine with its pointer elsewhere.
    pub open spec fn with_pc(self, pc: Addr) -> Machine {
        Machine { pc, ..self }
    }

    /// This machine heading in another direction.
    pub open spec fn with_delta(self, delta: Delta) -> Machine {
        Machine { delta, ..self }
    }

    /// This machine with another playfield.
    pub open spec fn with_cells(self, cells: Seq<i64>) -> Machine {
        Machine { cells, ..self }
    }

    /// The value of the cell that `a` denotes.
    pub open spec fn cell_at(self, a: Addr) -> i64 {
        self.cells[a.cell()]
    }

    /// The opcode under the instruction pointer: the character that its cell shows.
    pub open spec fn opcode(self) -> char {
        glyph(self.cell_at(self.pc))
    }

    /// The character of the cell `i` steps ahead of the instruction pointer.
    pub open spec fn code_ahead(self, i: int) -> char {
        glyph(
            self.cells[crate::address::cell_index(
                self.pc.col_after(self.delta, i),
                self.pc.row_after(self.delta, i),
            )],
        )
    }

    /// Number of steps from `i` on to the first cell ahead that shows `stop`,
    /// the search ending where travel comes back to the cell it started from.
    pub open spec fn span_from(self, stop: char, i: int) -> int
        decreases self.delta.lap() - i,
    {
        if i >= self.delta.lap() || self.code_ahead(i) == stop {
            i
        } else {
            self.span_from(stop, i + 1)
        }
    }

    /// Number of steps to the cell that closes a literal opened under the
    /// instruction pointer.
    pub open spec fn span(self, stop: char) -> int {
        self.span_from(stop, 1)
    }

    /// Whether a cell showing `stop` closes the literal.
    pub open spec fn closed(self, stop: char) -> bool {
        self.code_ahead(self.span(stop)) == stop
    }

    /// The characters between the instruction pointer and the closing cell.
    pub open spec fn literal(self, stop: char) -> Seq<char> {
        Seq::new((self.span(stop) - 1) as nat, |i: int| self.code_ahead(i + 1))
    }

    /// The outcome of an operation that left the machine as `after`, once the
    /// pointer has moved `n` steps on; the machine stays as it was where the
    /// pointer cannot be moved.
    pub open spec fn finish(self, after: Machine, signal: Signal, n: int) -> (Machine, Signal) {
        if after.pc.reaches(after.delta, n) {
            (after.with_pc(after.pc.moved(after.delta, n)), signal)
        } else {
            (self, Signal::Fault(Fault::OutOfRange))
        }
    }

    /// The outcome of an operation that leaves `stack` and moves one step on.
    pub open spec fn leave(self, stack: Seq<i64>) -> (Machine, Signal) {
        self.finish(self.with_stack(stack), Signal::Continue, 1)
    }

    /// The outcome of an arithmetic operation with the result `v`.
    pub open spec fn compute(self, v: int) -> (Machine, Signal) {
        if fits(v) {
            self.leave(below(self.stack, 2).push(v as i64))
        } else {
            (self, Signal::Fault(Fault::Overflow))
        }
    }

    /// The outcome of a label reference.
    pub open spec fn call(self) -> (Machine, Signal) {
        let k = self.span(']');
        let name = self.literal(']');
        if !self.closed(']') {
            (self, Signal::Fault(Fault::OpenLabel))
        } else if !self.pc.reaches(self.delta, k) {
            (self, Signal::Fault(Fault::OutOfRange))
        } else if !self.symbols.contains_key(name) {
            (self.with_pc(self.pc.moved(self.delta, k)), Signal::NoSuchSymbol(name))
        } else {
            let back = self.pc.moved(self.delta, k + 1);
            let target = self.symbols[name];
            self.finish(
                self.with_stack(self.stack.push(back.0).push(back.1).push(target.0).push(target.1)),
                Signal::Continue,
                k + 1,
            )
        }
    }

    /// What one step does: the machine afterwards and what it asks of the
    /// host. `chance` is the direction that `?` takes.
    pub open spec fn tick(self, chance: Delta) -> (Machine, Signal) {
        let op = self.opcode();
        let s = self.stack;
        let y = top(s, 0);
        let x = top(s, 1);
        if hex_value(op) is Some {
            self.leave(s.push(hex_value(op).unwrap()))
        } else if op == '+' {
            self.compute(x + y)
        } else if op == '-' {
            self.compute(x - y)
        } else if op == '*' {
            self.compute(x * y)
        } else if op == '/' {
            if y == 0 {
                (self, Signal::Fault(Fault::DivideByZero))
            } else {
                self.compute(trunc_div(x as int, y as int))
            }
        } else if op == '%' {
            if y == 0 {
                (self, Signal::Fault(Fault::DivideByZero))
            } else {
                self.compute(trunc_rem(x as int, y as int))
            }
        } else if op == '`' {
            self.compute(if x > y { 1 } else { 0 })
        } else if op == '!' {
            self.leave(below(s, 1).push(if y == 0 { 1 } else { 0 }))
        } else if op == '^' {
            self.finish(self.with_delta(Delta::N), Signal::Continue, 1)
        } else if op == 'v' {
            self.finish(self.with_delta(Delta::S), Signal::Continue, 1)
        } else if op == '>' {
            self.finish(self.with_delta(Delta::E), Signal::Continue, 1)
        } else if op == '<' {
            self.finish(self.with_delta(Delta::W), Signal::Continue, 1)
        } else if op == '?' {
            self.finish(self.with_delta(chance), Signal::Continue, 1)
        } else if op == '#' {
            self.finish(self, Signal::Continue, 2)
        } else if op == '_' {
            self.finish(
                self.with_stack(below(s, 1)).with_delta(if y != 0 { Delta::W } else { Delta::E }),
                Signal::Continue,
                1,
            )
        } else if op == '|' {
            self.finish(
                self.with_stack(below(s, 1)).with_delta(if y != 0 { Delta::N } else { Delta::S }),
                Signal::Continue,
                1,
            )
        } else if op == '"' {
            self.finish(
                self.with_stack(s + self.literal('"').map_values(|c: char| c as i64)),
                Signal::Continue,
                self.span('"') + 1,
            )
        } else if op == '[' {
            self.call()
        } else if op == 'r' {
            self.leave(s.push(self.pc.0).push(self.pc.1))
        } else if op == 'j' {
            self.finish(self.with_stack(below(s, 2)).with_pc(Addr(x, y)), Signal::Continue, 1)
        } else if op == ':' {
            self.leave(below(s, 1).push(y).push(y))
        } else if op == '\\' {
            self.leave(below(s, 2).push(y).push(x))
        } else if op == '$' {
            self.leave(below(s, 1))
        } else if op == '.' {
            self.finish(self.with_stack(below(s, 1)), Signal::PrintNumber(y), 1)
        } else if op == ',' {
            self.finish(self.with_stack(below(s, 1)), Signal::PrintChar(glyph(y)), 1)
        } else if op == '&' {
            (self, Signal::ReadNumber)
        } else if op == '~' {
            (self, Signal::ReadChar)
        } else if op == 'p' {
            self.finish(
                self.with_stack(below(s, 3)).with_cells(
                    self.cells.update(Addr(x, y).cell(), top(s, 2)),
                ),
                Signal::Continue,
                1,
            )
        } else if op == 'g' {
            self.leave(below(s, 2).push(self.cell_at(Addr(x, y))))
        } else if op == '@' {
            (self, Signal::Halt)
        } else if op == ' ' {
            self.finish(self, Signal::Continue, 1)
        } else {
            (self, Signal::Interrupt(op, self.pc))
        }
    }

    /// What the delivery of a line to `&` does: its number is pushed.
    pub open spec fn deliver_number(self, line: Seq<u8>) -> (Machine, Signal) {
        match decimal(line) {
            Some(v) => self.leave(self.stack.push(v)),
            None => (self, Signal::Fault(Fault::BadNumber)),
        }
    }

    /// What the delivery of a line to `~` does: the code of its first
    /// character is pushed.
    pub open spec fn deliver_char(self, line: Seq<u8>) -> (Machine, Signal) {
        if line.len() == 0 {
            (self, Signal::Fault(Fault::NoInput))
        } else {
            self.leave(self.stack.push(line[0] as i64))
        }
    }

    /// What the answer to an interrupt does: yes steps over the unknown
    /// opcode, no halts, anything else asks again.
    pub open spec fn answer(self, line: Seq<u8>) -> (Machine, Signal) {
        if line.len() == 0 {
            (self, Signal::Fault(Fault::NoInput))
        } else if line[0] as char == 'y' || line[0] as char == 'Y' {
            self.finish(self, Signal::Continue, 1)
        } else if line[0] as char == 'n' || line[0] as char == 'N' {
            (self, Signal::Halt)
        } else {
            (self, Signal::Ask)
        }
    }
}

} // verus!
