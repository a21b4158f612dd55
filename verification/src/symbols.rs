//! The symbol table: label names and the addresses they stand for.
//!
//! A name is the sequence of characters between the braces of a label. The table
//! holds each name at most once; a later definition replaces an earlier one.

use vstd::prelude::*;
use crate::address::Addr;

verus! {

/// One label: its name and the address that a reference to it yields.
pub struct Symbol {
    name: Vec<char>,
    target: Addr,
}

/// Whether one of the entries has the name `n`.
spec fn listed(es: Seq<Symbol>, n: Seq<char>) -> bool {
    exists|i: int| 0 <= i < es.len() && (#[trigger] es[i]).name@ == n
}

/// The place of the entry with the name `n`.
spec fn place(es: Seq<Symbol>, n: Seq<char>) -> int {
    choose|i: int| 0 <= i < es.len() && (#[trigger] es[i]).name@ == n
}

/// Whether no two entries share a name.
spec fn distinct(es: Seq<Symbol>) -> bool {
    forall|i: int, j: int|
        0 <= i < j < es.len() ==> (#[trigger] es[i]).name@ != (#[trigger] es[j]).name@
}

/// The mapping that the entries stand for.
spec fn mapping(es: Seq<Symbol>) -> Map<Seq<char>, Addr> {
    Map::new(|n: Seq<char>| listed(es, n), |n: Seq<char>| es[place(es, n)].target)
}

/// Compares two names.
pub fn same_text(a: &Vec<char>, b: &Vec<char>) -> (r: bool)
    ensures
        r == (a@ == b@),
{
    if a.len() != b.len() {
        return false;
    }
    let mut i: usize = 0;
    while i < a.len()
        invariant
            i <= a.len(),
            a.len() == b.len(),
            forall|k: int| 0 <= k < i ==> a@[k] == b@[k],
        decreases a.len() - i,
    {
        if a[i] != b[i] {
            return false;
        }
        i += 1;
    }
    assert(a@ =~= b@);
    true
}

/// Label names with their target addresses.
pub struct SymbolTable {
    entries: Vec<Symbol>,
}

impl View for SymbolTable {
    type V = Map<Seq<char>, Addr>;

    closed spec fn view(&self) -> Map<Seq<char>, Addr> {
        mapping(self.entries@)
    }
}

impl SymbolTable {
    #[verifier::type_invariant]
    spec fn sound(self) -> bool {
        distinct(self.entries@)
    }

    /// A table without entries.
    pub fn new() -> (t: SymbolTable)
        ensures
            t@ == Map::<Seq<char>, Addr>::empty(),
    {
        let t = SymbolTable { entries: Vec::new() };
        assert(t@ =~= Map::<Seq<char>, Addr>::empty());
        t
    }

    /// Place of the entry named `name`, if there is one.
    fn find(&self, name: &Vec<char>) -> (r: Option<usize>)
        ensures
            match r {
                Some(i) => i < self.entries@.len() && self.entries@[i as int].name@ == name@,
                None => !listed(self.entries@, name@),
            },
    {
        let mut i: usize = 0;
        while i < self.entries.len()
            invariant
                i <= self.entries@.len(),
                forall|k: int| 0 <= k < i ==> (#[trigger] self.entries@[k]).name@ != name@,
            decreases self.entries@.len() - i,
        {
            if same_text(&self.entries[i].name, name) {
                return Some(i);
            }
            i += 1;
        }
        None
    }

    /// The address recorded for `name`, or `None` where the table has no such name.
    pub fn lookup(&self, name: &Vec<char>) -> (r: Option<Addr>)
        ensures
            r == (if self@.contains_key(name@) {
                Some(self@[name@])
            } else {
                None
            }),
    {
        proof {
            use_type_invariant(self);
        }
        match self.find(name) {
            Some(i) => {
                assert(listed(self.entries@, name@));
                Some(self.entries[i].target)
            },
            None => None,
        }
    }

    /// Records `target` for `name`, in place of what was recorded for it before.
    pub fn insert(&mut self, name: Vec<char>, target: Addr)
        ensures
            final(self)@ == old(self)@.insert(name@, target),
    {
        proof {
            use_type_invariant(&*self);
        }
        let ghost before = self.entries@;
        let found = self.find(&name);
        let entry = Symbol { name, target };
        // The entries are taken out while they change, so that the table is
        // sound whenever it is looked at.
        let mut entries: Vec<Symbol> = Vec::new();
        std::mem::swap(&mut self.entries, &mut entries);
        match found {
            Some(i) => {
                entries[i] = entry;
                proof {
                    lemma_replaced(before, i as int, entry);
                }
            },
            None => {
                entries.push(entry);
                proof {
                    lemma_appended(before, entry);
                }
            },
        }
        std::mem::swap(&mut self.entries, &mut entries);
    }
}

/// Putting an entry in the place of one with the same name records its
/// target for that name and keeps the names distinct.
proof fn lemma_replaced(before: Seq<Symbol>, i: int, entry: Symbol)
    requires
        distinct(before),
        0 <= i < before.len(),
        before[i].name@ == entry.name@,
    ensures
        distinct(before.update(i, entry)),
        mapping(before.update(i, entry)) == mapping(before).insert(entry.name@, entry.target),
{
    let after = before.update(i, entry);
    assert forall|n: Seq<char>| listed(after, n) == listed(before, n) by {
        if listed(before, n) {
            assert(after[place(before, n)].name@ == n);
        }
        if listed(after, n) {
            assert(before[place(after, n)].name@ == n);
        }
    }
    assert forall|n: Seq<char>| listed(after, n) implies after[place(after, n)].target == (if n
        == entry.name@ {
        entry.target
    } else {
        before[place(before, n)].target
    }) by {
        assert(before[place(after, n)].name@ == n);
        assert(before[place(before, n)].name@ == n);
    }
    assert(mapping(after) =~= mapping(before).insert(entry.name@, entry.target));
}

/// Adding an entry with a name that no entry has records its target for
/// that name and keeps the names distinct.
proof fn lemma_appended(before: Seq<Symbol>, entry: Symbol)
    requires
        distinct(before),
        !listed(before, entry.name@),
    ensures
        distinct(before.push(entry)),
        mapping(before.push(entry)) == mapping(before).insert(entry.name@, entry.target),
{
    let after = before.push(entry);
    assert(after[before.len() as int].name@ == entry.name@);
    assert forall|n: Seq<char>| listed(after, n) == (n == entry.name@ || listed(before, n)) by {
        if listed(before, n) {
            assert(after[place(before, n)].name@ == n);
        }
        if listed(after, n) && place(after, n) < before.len() {
            assert(before[place(after, n)].name@ == n);
        }
    }
    assert forall|n: Seq<char>| listed(after, n) implies after[place(after, n)].target == (if n
        == entry.name@ {
        entry.target
    } else {
        before[place(before, n)].target
    }) by {
        let k = place(after, n);
        if k < before.len() {
            assert(before[k].name@ == n);
            assert(before[place(before, n)].name@ == n);
        }
    }
    assert(mapping(after) =~= mapping(before).insert(entry.name@, entry.target));
}

} // verus!
