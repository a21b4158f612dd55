//! The execution engine: one step of the machine at a time.
//!
//! A step reads the opcode under the instruction pointer, performs it and
//! moves the pointer on. What the step cannot do itself (print, read a line,
//! ask the user) it hands to the host as an `Action`; the host answers a
//! request for input with `enter_number`, `enter_char` or `answer`.

use vstd::prelude::*;
use crate::address::{glyph_of, wrap, Addr, Delta, HEIGHT, WIDTH};
use crate::chance::DirectionSource;
use crate::machine::{below, fits, top, trunc_div, trunc_rem, Fault, Machine, Signal};
use crate::number::parse_decimal;
use crate::vm::VM;

verus! {

/// What a step asks of the host.
#[derive(Debug, PartialEq, Eq)]
pub enum Action {
    /// Nothing: go on with the next step.
    Continue,
    /// Print the number in decimal, with nothing before or after it.
    PrintNumber(i64),
    /// Print the character.
    PrintChar(char),
    /// Read a line and hand it to `enter_number`.
    ReadNumber,
    /// Read a line and hand it to `enter_char`.
    ReadChar,
    /// The opcode at the address is unknown: report it, ask whether to
    /// proceed and hand the reply to `answer`.
    Interrupt(char, Addr),
    /// The reply was neither yes nor no: ask again.
    Ask,
    /// No label has this name: report it. The machine has halted.
    NoSuchSymbol(Vec<char>),
    /// The machine has halted.
    Halt,
    /// The machine cannot go on; it is as it was before the step.
    Fault(Fault),
}

impl View for Action {
    type V = Signal;

    open spec fn view(&self) -> Signal {
        match self {
            Action::Continue => Signal::Continue,
            Action::PrintNumber(v) => Signal::PrintNumber(*v),
            Action::PrintChar(c) => Signal::PrintChar(*c),
            Action::ReadNumber => Signal::ReadNumber,
            Action::ReadChar => Signal::ReadChar,
            Action::Interrupt(c, a) => Signal::Interrupt(*c, *a),
            Action::Ask => Signal::Ask,
            Action::NoSuchSymbol(name) => Signal::NoSuchSymbol(name@),
            Action::Halt => Signal::Halt,
            Action::Fault(f) => Signal::Fault(*f),
        }
    }
}

/// The quotient of `x` by `y`, rounded towards zero, where it is a 64-bit integer.
fn quotient(x: i64, y: i64) -> (r: Option<i64>)
    requires
        y != 0,
    ensures
        r == (if fits(trunc_div(x as int, y as int)) {
            Some(trunc_div(x as int, y as int) as i64)
        } else {
            None
        }),
{
    x.checked_div(y)
}

/// The remainder of `x` by `y` that has the sign of `x`.
fn remainder(x: i64, y: i64) -> (r: i64)
    requires
        y != 0,
    ensures
        r == trunc_rem(x as int, y as int),
{
    match x.checked_rem(y) {
        Some(r) => r,
        None => 0,
    }
}

impl VM {
    /// Takes `take` values off the stack, turns to `d` and sets the pointer
    /// `n` steps from `from`. Where that address cannot be represented,
    /// nothing is done and the result is `false`.
    fn shift(&mut self, take: usize, d: Delta, from: Addr, n: i64) -> (ok: bool)
        requires
            0 <= n,
        ensures
            ok == from.reaches(d, n as int),
            ok ==> final(self)@ == old(self)@.with_stack(
                below(old(self)@.stack, take as int),
            ).with_delta(d).with_pc(from.moved(d, n as int)),
            !ok ==> final(self)@ == old(self)@,
    {
        match from.shifted(d, n) {
            Some(target) => {
                self.discard(take);
                self.turn(d);
                self.jump(target);
                true
            },
            None => false,
        }
    }

    /// Takes `take` values off the stack and moves one step on.
    fn pass(&mut self, take: usize, signal: Action) -> (r: Action)
        ensures
            (final(self)@, r@) == old(self)@.finish(
                old(self)@.with_stack(below(old(self)@.stack, take as int)),
                signal@,
                1,
            ),
    {
        let d = self.delta();
        let from = self.pc();
        if self.shift(take, d, from, 1) {
            signal
        } else {
            Action::Fault(Fault::OutOfRange)
        }
    }

    /// Replaces the top `take` values of the stack by `v` and moves one step on.
    fn give(&mut self, take: usize, v: i64) -> (r: Action)
        ensures
            (final(self)@, r@) == old(self)@.leave(below(old(self)@.stack, take as int).push(v)),
    {
        let d = self.delta();
        let from = self.pc();
        if self.shift(take, d, from, 1) {
            self.push(v);
            Action::Continue
        } else {
            Action::Fault(Fault::OutOfRange)
        }
    }

    /// Replaces the top `take` values of the stack by `v` and `w`, `w` on top,
    /// and moves one step on.
    fn give_pair(&mut self, take: usize, v: i64, w: i64) -> (r: Action)
        ensures
            (final(self)@, r@) == old(self)@.leave(
                below(old(self)@.stack, take as int).push(v).push(w),
            ),
    {
        let d = self.delta();
        let from = self.pc();
        if self.shift(take, d, from, 1) {
            self.push(v);
            self.push(w);
            Action::Continue
        } else {
            Action::Fault(Fault::OutOfRange)
        }
    }

    /// Turns to `d`, after taking `take` values off the stack, and moves one step on.
    fn head(&mut self, take: usize, d: Delta) -> (r: Action)
        ensures
            (final(self)@, r@) == old(self)@.finish(
                old(self)@.with_stack(below(old(self)@.stack, take as int)).with_delta(d),
                Signal::Continue,
                1,
            ),
    {
        let from = self.pc();
        if self.shift(take, d, from, 1) {
            Action::Continue
        } else {
            Action::Fault(Fault::OutOfRange)
        }
    }

    /// Ends an arithmetic operation whose result is `v`, if it has one.
    fn settle(&mut self, v: Option<i64>) -> (r: Action)
        ensures
            (final(self)@, r@) == (match v {
                Some(w) => old(self)@.leave(below(old(self)@.stack, 2).push(w)),
                None => (old(self)@, Signal::Fault(Fault::Overflow)),
            }),
    {
        match v {
            Some(w) => self.give(2, w),
            None => Action::Fault(Fault::Overflow),
        }
    }

    /// The characters ahead of the pointer up to the cell that shows `stop`,
    /// and whether such a cell was found before travel came back to its start.
    fn gather(&self, stop: char) -> (r: (Vec<char>, bool))
        ensures
            r.0@ == self@.literal(stop),
            r.1 == self@.closed(stop),
            r.0@.len() + 1 == self@.span(stop),
            1 <= self@.span(stop) <= self@.delta.lap(),
            forall|j: int| 0 <= j < r.0@.len() ==> 0 <= (#[trigger] r.0@[j] as int) < 256,
    {
        let d = self.delta();
        let pc = self.pc();
        let lap: i64 = d.lap_len();
        let start = Addr(wrap(pc.0, WIDTH), wrap(pc.1, HEIGHT));
        let mut text: Vec<char> = Vec::new();
        let mut i: i64 = 1;
        let mut cur: Addr = start.add(d);
        loop
            invariant
                d == self@.delta,
                pc == self@.pc,
                lap == d.lap(),
                start == Addr((pc.0 as int % 80) as i64, (pc.1 as int % 25) as i64),
                0 <= start.0 < 80,
                0 <= start.1 < 25,
                1 <= i <= lap <= 80,
                cur == start.moved(d, i as int),
                text@.len() == i - 1,
                forall|j: int| 0 <= j < i - 1 ==> text@[j] == self@.code_ahead(j + 1),
                forall|j: int| 0 <= j < i - 1 ==> 0 <= (#[trigger] text@[j] as int) < 256,
                self@.span_from(stop, i as int) == self@.span(stop),
            ensures
                i == self@.span(stop),
                self@.code_ahead(i as int) != stop,
                1 <= i <= lap,
                text@.len() == i - 1,
                forall|j: int| 0 <= j < i - 1 ==> text@[j] == self@.code_ahead(j + 1),
                forall|j: int| 0 <= j < i - 1 ==> 0 <= (#[trigger] text@[j] as int) < 256,
            decreases lap - i,
        {
            let c: char = glyph_of(self.fetch(cur));
            proof {
                lemma_same_cell(pc, d, i as int);
                assert(c == self@.code_ahead(i as int));
            }
            if c == stop {
                assert(text@ =~= self@.literal(stop));
                return (text, true);
            }
            if i >= lap {
                break ;
            }
            text.push(c);
            i += 1;
            cur = cur.add(d);
        }
        assert(text@ =~= self@.literal(stop));
        (text, false)
    }

    /// Performs `"`: pushes the characters up to the closing quote.
    fn quote(&mut self) -> (r: Action)
        ensures
            (final(self)@, r@) == old(self)@.finish(
                old(self)@.with_stack(
                    old(self)@.stack + old(self)@.literal('"').map_values(|c: char| c as i64),
                ),
                Signal::Continue,
                old(self)@.span('"') + 1,
            ),
    {
        let (text, _found) = self.gather('"');
        let d = self.delta();
        let from = self.pc();
        let n: i64 = text.len() as i64 + 2;
        if !self.shift(0, d, from, n) {
            return Action::Fault(Fault::OutOfRange);
        }
        let ghost base = self@;
        let ghost codes = text@.map_values(|c: char| c as i64);
        let mut j: usize = 0;
        while j < text.len()
            invariant
                j <= text@.len(),
                forall|k: int| 0 <= k < text@.len() ==> 0 <= (#[trigger] text@[k] as int) < 256,
                codes == text@.map_values(|c: char| c as i64),
                self@ == base.with_stack(base.stack + codes.take(j as int)),
            decreases text@.len() - j,
        {
            let c: char = text[j];
            self.push(c as u32 as i64);
            proof {
                assert(codes[j as int] == c as i64);
                assert(codes.take(j + 1) =~= codes.take(j as int).push(c as i64));
                assert((base.stack + codes.take(j as int)).push(c as i64) =~= base.stack
                    + codes.take(j + 1));
            }
            j += 1;
        }
        assert(codes.take(j as int) =~= codes);
        Action::Continue
    }

    /// Performs `[`: reads the name up to `]` and pushes the address after
    /// the reference, then the address of the label.
    fn call(&mut self) -> (r: Action)
        ensures
            (final(self)@, r@) == old(self)@.call(),
    {
        let (name, found) = self.gather(']');
        if !found {
            return Action::Fault(Fault::OpenLabel);
        }
        let d = self.delta();
        let from = self.pc();
        let k: i64 = name.len() as i64 + 1;
        let landing = match from.shifted(d, k) {
            Some(a) => a,
            None => {
                return Action::Fault(Fault::OutOfRange);
            },
        };
        match self.resolve(&name) {
            None => {
                self.jump(landing);
                Action::NoSuchSymbol(name)
            },
            Some(target) => {
                match from.shifted(d, k + 1) {
                    None => Action::Fault(Fault::OutOfRange),
                    Some(back) => {
                        self.push(back.0);
                        self.push(back.1);
                        self.push(target.0);
                        self.push(target.1);
                        self.jump(back);
                        Action::Continue
                    },
                }
            },
        }
    }

    /// Performs `j`: sets the pointer to the address on the stack, column
    /// below row, and moves one step on from there.
    fn leap(&mut self) -> (r: Action)
        ensures
            (final(self)@, r@) == old(self)@.finish(
                old(self)@.with_stack(below(old(self)@.stack, 2)).with_pc(
                    Addr(top(old(self)@.stack, 1), top(old(self)@.stack, 0)),
                ),
                Signal::Continue,
                1,
            ),
    {
        let d = self.delta();
        let from = Addr(self.peek(1), self.peek(0));
        if self.shift(2, d, from, 1) {
            Action::Continue
        } else {
            Action::Fault(Fault::OutOfRange)
        }
    }

    /// Performs `p`: writes the third value from the top to the cell whose
    /// row is on top of the stack and whose column is below it.
    fn store(&mut self) -> (r: Action)
        ensures
            (final(self)@, r@) == old(self)@.finish(
                old(self)@.with_stack(below(old(self)@.stack, 3)).with_cells(
                    old(self)@.cells.update(
                        Addr(top(old(self)@.stack, 1), top(old(self)@.stack, 0)).cell(),
                        top(old(self)@.stack, 2),
                    ),
                ),
                Signal::Continue,
                1,
            ),
    {
        let at = Addr(self.peek(1), self.peek(0));
        let v = self.peek(2);
        let d = self.delta();
        let from = self.pc();
        if self.shift(3, d, from, 1) {
            self.put(at, v);
            Action::Continue
        } else {
            Action::Fault(Fault::OutOfRange)
        }
    }

    /// Performs one step, `chance` being the direction that `?` takes.
    pub fn tick_with(&mut self, chance: Delta) -> (r: Action)
        ensures
            (final(self)@, r@) == old(self)@.tick(chance),
    {
        let op: char = self.instr();
        let y: i64 = self.peek(0);
        let x: i64 = self.peek(1);
        match op {
            '0'..='9' => self.give(0, (op as u32 - '0' as u32) as i64),
            'a'..='f' => self.give(0, (op as u32 - 'a' as u32 + 10) as i64),
            '+' => self.settle(x.checked_add(y)),
            '-' => self.settle(x.checked_sub(y)),
            '*' => self.settle(x.checked_mul(y)),
            '/' => if y == 0 {
                Action::Fault(Fault::DivideByZero)
            } else {
                self.settle(quotient(x, y))
            },
            '%' => if y == 0 {
                Action::Fault(Fault::DivideByZero)
            } else {
                self.settle(Some(remainder(x, y)))
            },
            '`' => self.settle(Some(if x > y { 1 } else { 0 })),
            '!' => self.give(1, if y == 0 { 1 } else { 0 }),
            '^' => self.head(0, Delta::N),
            'v' => self.head(0, Delta::S),
            '>' => self.head(0, Delta::E),
            '<' => self.head(0, Delta::W),
            '?' => self.head(0, chance),
            '#' => {
                let d = self.delta();
                let from = self.pc();
                if self.shift(0, d, from, 2) {
                    Action::Continue
                } else {
                    Action::Fault(Fault::OutOfRange)
                }
            },
            '_' => self.head(1, if y != 0 { Delta::W } else { Delta::E }),
            '|' => self.head(1, if y != 0 { Delta::N } else { Delta::S }),
            '"' => self.quote(),
            '[' => self.call(),
            'r' => {
                let at = self.pc();
                self.give_pair(0, at.0, at.1)
            },
            'j' => self.leap(),
            ':' => self.give_pair(1, y, y),
            '\\' => self.give_pair(2, y, x),
            '$' => self.pass(1, Action::Continue),
            '.' => self.pass(1, Action::PrintNumber(y)),
            ',' => self.pass(1, Action::PrintChar(glyph_of(y))),
            '&' => Action::ReadNumber,
            '~' => Action::ReadChar,
            'p' => self.store(),
            'g' => {
                let v = self.fetch(Addr(x, y));
                self.give(2, v)
            },
            '@' => Action::Halt,
            ' ' => self.pass(0, Action::Continue),
            _ => Action::Interrupt(op, self.pc()),
        }
    }

    /// Performs one step; the direction that `?` takes is drawn from `source`.
    pub fn tick<S: DirectionSource>(&mut self, source: &mut S) -> (r: Action)
        ensures
            exists|d: Delta| (final(self)@, r@) == #[trigger] old(self)@.tick(d),
            old(self)@.opcode() != '?' ==> (final(self)@, r@) == old(self)@.tick(old(self)@.delta),
    {
        let chance: Delta = if self.instr() == '?' {
            source.next_direction()
        } else {
            self.delta()
        };
        self.tick_with(chance)
    }

    /// Answers `ReadNumber`: pushes the decimal integer that `line` writes.
    pub fn enter_number(&mut self, line: &[u8]) -> (r: Action)
        ensures
            (final(self)@, r@) == old(self)@.deliver_number(line@),
    {
        match parse_decimal(line) {
            Some(v) => self.give(0, v),
            None => Action::Fault(Fault::BadNumber),
        }
    }

    /// Answers `ReadChar`: pushes the code of the first character of `line`.
    pub fn enter_char(&mut self, line: &[u8]) -> (r: Action)
        ensures
            (final(self)@, r@) == old(self)@.deliver_char(line@),
    {
        if line.len() == 0 {
            Action::Fault(Fault::NoInput)
        } else {
            self.give(0, line[0] as i64)
        }
    }

    /// Answers `Interrupt` and `Ask` with the user's reply.
    pub fn answer(&mut self, line: &[u8]) -> (r: Action)
        ensures
            (final(self)@, r@) == old(self)@.answer(line@),
    {
        if line.len() == 0 {
            return Action::Fault(Fault::NoInput);
        }
        let c: char = line[0] as char;
        if c == 'y' || c == 'Y' {
            self.pass(0, Action::Continue)
        } else if c == 'n' || c == 'N' {
            Action::Halt
        } else {
            Action::Ask
        }
    }
}

/// The cell `i` steps from an address is the cell `i` steps from the address
/// reduced onto the torus.
proof fn lemma_same_cell(pc: Addr, d: Delta, i: int)
    ensures
        ({
            let start = Addr((pc.0 as int % 80) as i64, (pc.1 as int % 25) as i64);
            crate::address::cell_index(pc.col_after(d, i), pc.row_after(d, i))
                == crate::address::cell_index(start.col_after(d, i), start.row_after(d, i))
        }),
{
    let x = pc.0 as int;
    let y = pc.1 as int;
    vstd::arithmetic::div_mod::lemma_mod_twice(x, 80);
    vstd::arithmetic::div_mod::lemma_mod_twice(y, 25);
    vstd::arithmetic::div_mod::lemma_add_mod_noop(x, i, 80);
    vstd::arithmetic::div_mod::lemma_add_mod_noop(x % 80, i, 80);
    vstd::arithmetic::div_mod::lemma_add_mod_noop(x, -i, 80);
    vstd::arithmetic::div_mod::lemma_add_mod_noop(x % 80, -i, 80);
    vstd::arithmetic::div_mod::lemma_add_mod_noop(y, i, 25);
    vstd::arithmetic::div_mod::lemma_add_mod_noop(y % 25, i, 25);
    vstd::arithmetic::div_mod::lemma_add_mod_noop(y, -i, 25);
    vstd::arithmetic::div_mod::lemma_add_mod_noop(y % 25, -i, 25);
}

} // verus!
