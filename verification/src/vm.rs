//! The executable machine and its elementary operations.

use vstd::prelude::*;
use crate::address::{glyph_of, Addr, Delta, WIDTH};
use crate::grid::Grid;
use crate::loader::{loaded, Loader, CLOSE_BRACE, LINE_FEED, OPEN_BRACE};
use crate::machine::{below, top, Machine};
use crate::symbols::SymbolTable;

verus! {

/// The virtual machine: playfield, operand stack, instruction pointer,
/// direction of travel and symbol table.
pub struct VM {
    stack: Vec<i64>,
    mem: Grid,
    pc: Addr,
    delta: Delta,
    symbols: SymbolTable,
}

impl View for VM {
    type V = Machine;

    closed spec fn view(&self) -> Machine {
        Machine {
            stack: self.stack@,
            cells: self.mem@,
            pc: self.pc,
            delta: self.delta,
            symbols: self.symbols@,
        }
    }
}

impl VM {
    /// A machine with a blank playfield, an empty stack and no labels, its
    /// pointer at the origin and heading east.
    pub fn new() -> (vm: VM)
        ensures
            vm@ == Machine::initial(),
    {
        VM {
            stack: Vec::new(),
            mem: Grid::new(),
            pc: Addr(0, 0),
            delta: Delta::E,
            symbols: SymbolTable::new(),
        }
    }

    /// Loads source text: lays it onto the playfield and records its labels.
    pub fn from_bytes(bytes: &[u8]) -> (vm: VM)
        requires
            bytes@.len() <= i64::MAX,
        ensures
            vm@ == loaded(bytes@),
    {
        let mut vm = VM::new();
        let mut col: i64 = 0;
        let mut row: i64 = 0;
        let mut label: Option<Vec<char>> = None;
        let mut i: usize = 0;
        assert(bytes@.take(0) =~= Seq::<u8>::empty());
        while i < bytes.len()
            invariant
                i <= bytes@.len() <= i64::MAX,
                0 <= col <= WIDTH,
                0 <= row <= i,
                vm@.stack == Machine::initial().stack,
                vm@.pc == Machine::initial().pc,
                vm@.delta == Machine::initial().delta,
                Loader::start().feed_all(bytes@.take(i as int)) == (Loader {
                    cells: vm@.cells,
                    symbols: vm@.symbols,
                    col: col as int,
                    row: row as int,
                    label: match label {
                        Some(name) => Some(name@),
                        None => None,
                    },
                }),
            decreases bytes@.len() - i,
        {
            let b: u8 = bytes[i];
            proof {
                let next = bytes@.take(i + 1);
                assert(next.drop_last() =~= bytes@.take(i as int));
                assert(next.last() == b);
            }
            if b == LINE_FEED {
                row += 1;
                col = 0;
                label = None;
            } else {
                if col >= WIDTH {
                    row += 1;
                    col = 0;
                    label = None;
                }
                let a = Addr(col, row);
                vm.put(a, b as i64);
                match label {
                    None => {
                        if b == OPEN_BRACE {
                            label = Some(Vec::new());
                        }
                    },
                    Some(mut name) => {
                        if b == CLOSE_BRACE {
                            vm.define(name, a.add(Delta::E));
                            label = None;
                        } else {
                            name.push(b as char);
                            label = Some(name);
                        }
                    },
                }
                col += 1;
            }
            i += 1;
        }
        assert(bytes@.take(i as int) =~= bytes@);
        vm
    }

    /// Reads the cell that `a` denotes on the torus.
    pub fn fetch(&self, a: Addr) -> (v: i64)
        ensures
            v == self@.cell_at(a),
    {
        self.mem.fetch(a)
    }

    /// Writes `v` to the cell that `a` denotes on the torus.
    pub fn put(&mut self, a: Addr, v: i64)
        ensures
            final(self)@ == old(self)@.with_cells(old(self)@.cells.update(a.cell(), v)),
    {
        self.mem.put(a, v);
    }

    /// The opcode under the instruction pointer.
    pub fn instr(&self) -> (c: char)
        ensures
            c == self@.opcode(),
    {
        glyph_of(self.fetch(self.pc))
    }

    /// Sets the instruction pointer.
    pub fn jump(&mut self, a: Addr)
        ensures
            final(self)@ == old(self)@.with_pc(a),
    {
        self.pc = a;
    }

    /// The address one step ahead of the instruction pointer.
    pub fn next(&self) -> (a: Addr)
        requires
            self@.pc.reaches(self@.delta, 1),
        ensures
            a == self@.pc.moved(self@.delta, 1),
    {
        self.pc.add(self.delta)
    }

    /// Moves the instruction pointer one step ahead.
    pub fn step(&mut self)
        requires
            old(self)@.pc.reaches(old(self)@.delta, 1),
        ensures
            final(self)@ == old(self)@.with_pc(old(self)@.pc.moved(old(self)@.delta, 1)),
    {
        let n = self.next();
        self.jump(n);
    }

    /// Takes the top of the stack; an empty stack yields zero and stays empty.
    pub fn pop(&mut self) -> (v: i64)
        ensures
            v == top(old(self)@.stack, 0),
            final(self)@ == old(self)@.with_stack(below(old(self)@.stack, 1)),
    {
        let v = self.stack.pop().unwrap_or(0);
        assert(self.stack@ =~= below(old(self).stack@, 1));
        v
    }

    /// Puts `v` on top of the stack.
    pub fn push(&mut self, v: i64)
        ensures
            final(self)@ == old(self)@.with_stack(old(self)@.stack.push(v)),
    {
        self.stack.push(v);
    }

    /// Takes the top `k` values off the stack, or all of them where it holds fewer.
    pub fn discard(&mut self, k: usize)
        ensures
            final(self)@ == old(self)@.with_stack(below(old(self)@.stack, k as int)),
    {
        let n: usize = self.stack.len();
        if k < n {
            self.stack.truncate(n - k);
        } else {
            self.stack.clear();
        }
        assert(self.stack@ =~= below(old(self).stack@, k as int));
    }

    /// Sets the direction of travel.
    pub fn turn(&mut self, d: Delta)
        ensures
            final(self)@ == old(self)@.with_delta(d),
    {
        self.delta = d;
    }

    /// The instruction pointer.
    pub fn pc(&self) -> (a: Addr)
        ensures
            a == self@.pc,
    {
        self.pc
    }

    /// The direction of travel.
    pub fn delta(&self) -> (d: Delta)
        ensures
            d == self@.delta,
    {
        self.delta
    }

    /// The number of values on the stack.
    pub fn depth(&self) -> (n: usize)
        ensures
            n == self@.stack.len(),
    {
        self.stack.len()
    }

    /// The `k`-th value from the top of the stack, zero where the stack is too short.
    pub fn peek(&self, k: usize) -> (v: i64)
        ensures
            v == top(self@.stack, k as int),
    {
        if k < self.stack.len() {
            self.stack[self.stack.len() - 1 - k]
        } else {
            0
        }
    }

    /// The address recorded for the label `name`, if there is one.
    pub fn resolve(&self, name: &Vec<char>) -> (r: Option<Addr>)
        ensures
            r == (if self@.symbols.contains_key(name@) {
                Some(self@.symbols[name@])
            } else {
                None
            }),
    {
        self.symbols.lookup(name)
    }

    /// Records `target` for the label `name`, in place of an earlier record.
    pub fn define(&mut self, name: Vec<char>, target: Addr)
        ensures
            final(self)@ == (Machine {
                symbols: old(self)@.symbols.insert(name@, target),
                ..old(self)@
            }),
    {
        self.symbols.insert(name, target);
    }
}

} // verus!
