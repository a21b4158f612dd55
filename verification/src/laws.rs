//! Laws of the machine, proved of its specification.

use vstd::prelude::*;
use crate::address::{cell_index, Addr, Delta, HEIGHT, WIDTH};
use crate::loader::{loaded, Loader, CLOSE_BRACE, LINE_FEED, OPEN_BRACE};
use crate::machine::{below, fits, top, trunc_div, trunc_rem, Machine, Signal};

verus! {

/// The playfield is a torus: coordinates that differ by whole widths and
/// whole heights denote the same cell.
pub proof fn lemma_torus_index(col: int, row: int, i: int, j: int)
    ensures
        cell_index(col + i * WIDTH, row + j * HEIGHT) == cell_index(col, row),
{
    vstd::arithmetic::div_mod::lemma_mod_multiples_vanish(i, col, WIDTH as int);
    vstd::arithmetic::div_mod::lemma_mod_multiples_vanish(j, row, HEIGHT as int);
    assert(col + i * WIDTH == WIDTH * i + col) by (nonlinear_arith);
    assert(row + j * HEIGHT == HEIGHT * j + row) by (nonlinear_arith);
}

/// Reading an address, the address one width to the east of it and the
/// address one height to the south of it gives the same value.
pub proof fn lemma_torus_identity(m: Machine, a: Addr, east: Addr, south: Addr)
    requires
        east.0 == a.0 + WIDTH,
        east.1 == a.1,
        south.0 == a.0,
        south.1 == a.1 + HEIGHT,
    ensures
        m.cell_at(a) == m.cell_at(east),
        m.cell_at(a) == m.cell_at(south),
{
    lemma_torus_index(a.0 as int, a.1 as int, 1, 0);
    lemma_torus_index(a.0 as int, a.1 as int, 0, 1);
}

/// A step in a direction adds its unit delta: north is `(0, -1)`, south
/// `(0, 1)`, east `(1, 0)` and west `(-1, 0)`; `n` steps add it `n` times.
pub proof fn lemma_direction_delta(a: Addr, d: Delta, n: int)
    ensures
        a.col_after(d, n) == a.0 + n * d.dx(),
        a.row_after(d, n) == a.1 + n * d.dy(),
{
}

/// The stack after `n` values were taken off it, one at a time.
pub open spec fn drained(s: Seq<i64>, n: nat) -> Seq<i64>
    decreases n,
{
    if n == 0 {
        s
    } else {
        below(drained(s, (n - 1) as nat), 1)
    }
}

/// Taking a value off an empty stack yields zero, however many were taken
/// off it before.
pub proof fn lemma_pop_empty(n: nat)
    ensures
        drained(Seq::empty(), n) == Seq::<i64>::empty(),
        top(drained(Seq::empty(), n), 0) == 0,
    decreases n,
{
    if n > 0 {
        lemma_pop_empty((n - 1) as nat);
    }
}

/// Subtraction takes its right operand from the top of the stack: with `x`
/// pushed before `y`, `-` leaves `x - y`.
pub proof fn lemma_subtract_order(m: Machine, rest: Seq<i64>, x: i64, y: i64, chance: Delta)
    requires
        m.opcode() == '-',
        m.stack == rest.push(x).push(y),
        fits(x - y),
        m.pc.reaches(m.delta, 1),
    ensures
        m.tick(chance).0.stack == rest.push((x - y) as i64),
        m.tick(chance).1 == Signal::Continue,
{
    assert(below(m.stack, 2) =~= rest);
}

/// The search for a closing cell ends on the first cell ahead that shows
/// `stop`, or else on the cell that travel started from.
pub proof fn lemma_span(m: Machine, stop: char)
    ensures
        1 <= m.span(stop) <= m.delta.lap(),
        forall|i: int| 1 <= i < m.span(stop) ==> m.code_ahead(i) != stop,
        m.span(stop) < m.delta.lap() ==> m.closed(stop),
        m.code_ahead(m.delta.lap()) == m.opcode(),
{
    lemma_span_from(m, stop, 1);
    let lap = m.delta.lap();
    match m.delta {
        Delta::E => lemma_torus_index(m.pc.0 as int, m.pc.1 as int, 1, 0),
        Delta::W => lemma_torus_index(m.pc.0 as int, m.pc.1 as int, -1, 0),
        Delta::S => lemma_torus_index(m.pc.0 as int, m.pc.1 as int, 0, 1),
        Delta::N => lemma_torus_index(m.pc.0 as int, m.pc.1 as int, 0, -1),
    }
}

proof fn lemma_span_from(m: Machine, stop: char, from: int)
    requires
        1 <= from <= m.delta.lap(),
    ensures
        from <= m.span_from(stop, from) <= m.delta.lap(),
        forall|i: int| from <= i < m.span_from(stop, from) ==> m.code_ahead(i) != stop,
        m.span_from(stop, from) < m.delta.lap() ==> m.code_ahead(m.span_from(stop, from)) == stop,
    decreases m.delta.lap() - from,
{
    if from < m.delta.lap() && m.code_ahead(from) != stop {
        lemma_span_from(m, stop, from + 1);
    }
}

/// A string literal: `"` pushes the characters of the cells that follow, in
/// the order of travel, up to the next cell that shows `"`, and leaves the
/// pointer on the cell after that one. There always is such a cell: at the
/// latest the opening quote itself, reached again around the torus.
pub proof fn lemma_string_literal(m: Machine, chance: Delta)
    requires
        m.opcode() == '"',
        m.pc.reaches(m.delta, m.span('"') + 1),
    ensures
        m.closed('"'),
        forall|i: int| 1 <= i < m.span('"') ==> m.code_ahead(i) != '"',
        m.tick(chance).1 == Signal::Continue,
        m.tick(chance).0.pc == m.pc.moved(m.delta, m.span('"') + 1),
        m.tick(chance).0.stack == m.stack + m.literal('"').map_values(|c: char| c as i64),
        m.literal('"').len() == m.span('"') - 1,
        forall|i: int|
            0 <= i < m.literal('"').len() ==> #[trigger] m.literal('"')[i] == m.code_ahead(i + 1),
{
    lemma_span(m, '"');
}

/// A reference to a label that the symbol table holds pushes four values:
/// column and row of the cell after the reference, then column and row of
/// the label's address; the pointer goes to the cell after the reference.
pub proof fn lemma_label_call(m: Machine, chance: Delta)
    requires
        m.opcode() == '[',
        m.closed(']'),
        m.symbols.contains_key(m.literal(']')),
        m.pc.reaches(m.delta, m.span(']') + 1),
    ensures
        ({
            let after = m.tick(chance).0;
            let back = m.pc.moved(m.delta, m.span(']') + 1);
            let target = m.symbols[m.literal(']')];
            &&& m.tick(chance).1 == Signal::Continue
            &&& after.pc == back
            &&& after.stack == m.stack.push(back.0).push(back.1).push(target.0).push(target.1)
            &&& top(after.stack, 1) == target.0
            &&& top(after.stack, 0) == target.1
        }),
{
    lemma_span(m, ']');
}

/// No step changes the symbol table or the size of the playfield, whatever
/// the program writes into its cells.
pub proof fn lemma_step_keeps_symbols(m: Machine, chance: Delta, line: Seq<u8>)
    requires
        m.wf(),
    ensures
        m.tick(chance).0.symbols == m.symbols,
        m.deliver_number(line).0.symbols == m.symbols,
        m.deliver_char(line).0.symbols == m.symbols,
        m.answer(line).0.symbols == m.symbols,
        m.tick(chance).0.wf(),
        m.deliver_number(line).0.cells == m.cells,
        m.deliver_char(line).0.cells == m.cells,
        m.answer(line).0.cells == m.cells,
{
    let at = Addr(top(m.stack, 1), top(m.stack, 0));
    lemma_cell_in_range(at.0 as int, at.1 as int);
}

/// Every pair of coordinates denotes one of the cells of the playfield.
pub proof fn lemma_cell_in_range(col: int, row: int)
    ensures
        0 <= cell_index(col, row) < crate::address::CELLS,
{
    let r = row % (HEIGHT as int);
    let c = col % (WIDTH as int);
    assert(0 <= r * 80 + c < 2000) by (nonlinear_arith)
        requires
            0 <= r < 25,
            0 <= c < 80,
    ;
}

/// Only `?` depends on chance: under any other opcode a step is the same
/// whatever direction is drawn.
pub proof fn lemma_chance_only_for_random(m: Machine, first: Delta, second: Delta)
    requires
        m.opcode() != '?',
    ensures
        m.tick(first) == m.tick(second),
{
}

/// A step that ends in a fault, a halt or a request for input or for an
/// answer leaves the machine as it was.
pub proof fn lemma_refusal_changes_nothing(m: Machine, chance: Delta, line: Seq<u8>)
    ensures
        m.tick(chance).1 is Fault || m.tick(chance).1 is Halt || m.tick(chance).1 is ReadNumber
            || m.tick(chance).1 is ReadChar || m.tick(chance).1 is Interrupt ==> m.tick(chance).0
            == m,
        m.deliver_number(line).1 is Fault ==> m.deliver_number(line).0 == m,
        m.deliver_char(line).1 is Fault ==> m.deliver_char(line).0 == m,
        !(m.answer(line).1 is Continue) ==> m.answer(line).0 == m,
{
}

/// Quotient and remainder belong together: the quotient times the divisor
/// plus the remainder is the dividend, and the remainder is nearer to zero
/// than the divisor and never of the sign opposite to the dividend's.
pub proof fn lemma_division_identity(x: int, y: int)
    requires
        y != 0,
    ensures
        x == y * trunc_div(x, y) + trunc_rem(x, y),
        -y < trunc_rem(x, y) < y || y < trunc_rem(x, y) < -y,
        x >= 0 ==> trunc_rem(x, y) >= 0,
        x <= 0 ==> trunc_rem(x, y) <= 0,
{
    let a = if x >= 0 { x } else { -x };
    let b = if y > 0 { y } else { -y };
    vstd::arithmetic::div_mod::lemma_fundamental_div_mod(a, b);
    vstd::arithmetic::div_mod::lemma_mod_bound(a, b);
    let q = a / b;
    let r = a % b;
    assert(x == y * trunc_div(x, y) + trunc_rem(x, y)) by (nonlinear_arith)
        requires
            a == b * q + r,
            a == (if x >= 0 { x } else { -x }),
            b == (if y > 0 { y } else { -y }),
            y != 0,
            trunc_div(x, y) == (if (x >= 0) == (y > 0) { q } else { -q }),
            trunc_rem(x, y) == (if x >= 0 { r } else { -r }),
    ;
}

/// Every direction has a number below four, and the numbers below four
/// give back exactly the four directions.
pub proof fn lemma_direction_index(d: Delta, n: int)
    ensures
        0 <= d.index() < 4,
        Delta::of_index(d.index()) == d,
        0 <= n < 4 ==> Delta::of_index(n).index() == n,
{
}

/// The characters of a name as the loader reads them from bytes.
pub open spec fn name_of(bytes: Seq<u8>) -> Seq<char> {
    bytes.map_values(|b: u8| b as char)
}

/// Loading one text after another is loading their concatenation.
pub proof fn lemma_feed_concat(s: Loader, a: Seq<u8>, b: Seq<u8>)
    ensures
        s.feed_all(a + b) == s.feed_all(a).feed_all(b),
    decreases b.len(),
{
    if b.len() == 0 {
        assert(a + b =~= a);
    } else {
        assert((a + b).drop_last() =~= a + b.drop_last());
        assert((a + b).last() == b.last());
        lemma_feed_concat(s, a, b.drop_last());
    }
}

/// While a label is being read, bytes that neither end the line nor close
/// the label join its name.
proof fn lemma_feed_name(s: Loader, acc: Seq<char>, name: Seq<u8>)
    requires
        s.label == Some(acc),
        0 <= s.col,
        s.col + name.len() <= WIDTH,
        forall|i: int| 0 <= i < name.len() ==> name[i] != LINE_FEED && name[i] != CLOSE_BRACE,
    ensures
        s.feed_all(name).label == Some(acc + name_of(name)),
        s.feed_all(name).symbols == s.symbols,
        s.feed_all(name).col == s.col + name.len(),
        s.feed_all(name).row == s.row,
    decreases name.len(),
{
    if name.len() == 0 {
        assert(acc + name_of(name) =~= acc);
    } else {
        let init = name.drop_last();
        lemma_feed_name(s, acc, init);
        assert(acc + name_of(name) =~= (acc + name_of(init)).push(name.last() as char));
    }
}

/// A label is recorded where it is closed: after `{`, a name and `}` on one
/// row, the symbol table holds the name with the address of the cell east of
/// the `}`, and no label is being read any more.
pub proof fn lemma_label_recorded(before: Seq<u8>, name: Seq<u8>)
    requires
        Loader::start().feed_all(before).label is None,
        Loader::start().feed_all(before).col + name.len() + 2 <= WIDTH,
        forall|i: int| 0 <= i < name.len() ==> name[i] != LINE_FEED && name[i] != CLOSE_BRACE,
    ensures
        ({
            let s = Loader::start().feed_all(before);
            let t = Loader::start().feed_all(before + seq![OPEN_BRACE] + name + seq![CLOSE_BRACE]);
            let east = Addr((s.col + name.len() + 2) as i64, s.row as i64);
            &&& t.symbols == s.symbols.insert(name_of(name), east)
            &&& t.symbols.contains_key(name_of(name))
            &&& t.symbols[name_of(name)] == east
            &&& t.label is None
            &&& t.row == s.row
            &&& t.col == s.col + name.len() + 2
        }),
{
    lemma_loader_column(before);
    let s = Loader::start().feed_all(before);
    let open = seq![OPEN_BRACE];
    let close = seq![CLOSE_BRACE];
    lemma_feed_concat(Loader::start(), before + open + name, close);
    lemma_feed_concat(Loader::start(), before + open, name);
    lemma_feed_concat(Loader::start(), before, open);
    let s1 = s.feed_all(open);
    assert(s1 == s.feed(OPEN_BRACE)) by {
        assert(open.drop_last() =~= Seq::<u8>::empty());
        assert(open.last() == OPEN_BRACE);
        assert(s.feed_all(open.drop_last()) == s);
    }
    lemma_feed_name(s1, Seq::empty(), name);
    let s2 = s1.feed_all(name);
    assert(Seq::<char>::empty() + name_of(name) =~= name_of(name));
    assert(s2.feed_all(close) == s2.feed(CLOSE_BRACE)) by {
        assert(close.drop_last() =~= Seq::<u8>::empty());
        assert(close.last() == CLOSE_BRACE);
        assert(s2.feed_all(close.drop_last()) == s2);
    }
}

/// Whether the byte `b`, read by the loader `s`, closes a label named `n`.
pub open spec fn closes(s: Loader, b: u8, n: Seq<char>) -> bool {
    b == CLOSE_BRACE && s.col < WIDTH && s.label == Some(n)
}

/// A recorded label stays as it is while more text is loaded, unless that
/// text closes a label of the same name.
pub proof fn lemma_label_kept(s: Loader, rest: Seq<u8>, n: Seq<char>)
    requires
        s.symbols.contains_key(n),
        forall|k: int|
            0 <= k < rest.len() ==> !closes(#[trigger] s.feed_all(rest.take(k)), rest[k], n),
    ensures
        s.feed_all(rest).symbols.contains_key(n),
        s.feed_all(rest).symbols[n] == s.symbols[n],
    decreases rest.len(),
{
    if rest.len() > 0 {
        let init = rest.drop_last();
        assert forall|k: int| 0 <= k < init.len() implies !closes(
            #[trigger] s.feed_all(init.take(k)),
            init[k],
            n,
        ) by {
            assert(init.take(k) =~= rest.take(k));
        }
        lemma_label_kept(s, init, n);
        assert(rest.take(rest.len() - 1) =~= init);
        assert(!closes(s.feed_all(init), rest.last(), n));
    }
}

/// The label round trip: a label that the loaded text defines on one row,
/// and defines once, is found again by a reference to its name, whatever
/// the machine has done since it was loaded; the reference leaves on top of
/// the stack the column and, above it, the row of the cell east of the
/// label's `}`.
pub proof fn lemma_label_round_trip(
    before: Seq<u8>,
    name: Seq<u8>,
    rest: Seq<u8>,
    m: Machine,
    chance: Delta,
)
    requires
        Loader::start().feed_all(before).label is None,
        Loader::start().feed_all(before).col + name.len() + 2 <= WIDTH,
        forall|i: int| 0 <= i < name.len() ==> name[i] != LINE_FEED && name[i] != CLOSE_BRACE,
        forall|k: int|
            0 <= k < rest.len() ==> !closes(
                #[trigger] Loader::start().feed_all(
                    before + seq![OPEN_BRACE] + name + seq![CLOSE_BRACE],
                ).feed_all(rest.take(k)),
                rest[k],
                name_of(name),
            ),
        m.symbols == loaded(before + seq![OPEN_BRACE] + name + seq![CLOSE_BRACE] + rest).symbols,
        m.opcode() == '[',
        m.closed(']'),
        m.literal(']') == name_of(name),
        m.pc.reaches(m.delta, m.span(']') + 1),
    ensures
        ({
            let s = Loader::start().feed_all(before);
            let after = m.tick(chance).0;
            &&& m.tick(chance).1 == Signal::Continue
            &&& after.stack.len() == m.stack.len() + 4
            &&& top(after.stack, 1) == (s.col + name.len() + 2) as i64
            &&& top(after.stack, 0) == s.row as i64
        }),
{
    let label = before + seq![OPEN_BRACE] + name + seq![CLOSE_BRACE];
    lemma_label_recorded(before, name);
    lemma_feed_concat(Loader::start(), label, rest);
    lemma_label_kept(Loader::start().feed_all(label), rest, name_of(name));
    lemma_label_call(m, chance);
}

/// The loader's column never leaves the row: it is at most the width.
pub proof fn lemma_loader_column(bytes: Seq<u8>)
    ensures
        0 <= Loader::start().feed_all(bytes).col <= WIDTH,
        0 <= Loader::start().feed_all(bytes).row <= bytes.len(),
    decreases bytes.len(),
{
    if bytes.len() > 0 {
        lemma_loader_column(bytes.drop_last());
    }
}

/// Loading keeps the playfield whole: every text gives a machine with all
/// its cells.
pub proof fn lemma_loaded_wf(bytes: Seq<u8>)
    ensures
        loaded(bytes).wf(),
{
    lemma_feed_keeps_size(bytes);
}

proof fn lemma_feed_keeps_size(bytes: Seq<u8>)
    ensures
        Loader::start().feed_all(bytes).cells.len() == crate::address::CELLS,
    decreases bytes.len(),
{
    if bytes.len() > 0 {
        lemma_feed_keeps_size(bytes.drop_last());
        let s = Loader::start().feed_all(bytes.drop_last());
        lemma_cell_in_range(s.col, s.row);
        lemma_cell_in_range(0, s.row + 1);
    }
}

} // verus!
