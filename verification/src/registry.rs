//! The ordered registries of abstract entities observed during translation.

use vstd::prelude::*;
use vstd::string::*;
use crate::defs::DefId;
use crate::order::{chars_of, compare_chars, lex_lt, lex_lt_total, lex_lt_transitive, Place};

verus! {

/// An abstract entity as contracts speak of it: the mangled name of a trait
/// method or associated type, and the definition it was observed for.
pub struct Entry {
    pub name: Seq<char>,
    pub def: DefId,
}

/// An abstract entity as the registry stores it.
pub struct Record {
    pub name: String,
    pub def: DefId,
}

impl Record {
    pub open spec fn entry(self) -> Entry {
        Entry { name: self.name@, def: self.def }
    }
}

/// The number of leading entries of `s` whose name comes before `name`.
pub open spec fn slot(s: Seq<Entry>, name: Seq<char>) -> nat
    decreases s.len(),
{
    if s.len() == 0 || !lex_lt(s[0].name, name) {
        0
    } else {
        1 + slot(s.drop_first(), name)
    }
}

/// The entries after `e` has been recorded: `e` stands where the first entry
/// stood whose name does not come before its own, and takes that entry's
/// place if the names are equal.
pub open spec fn record(s: Seq<Entry>, e: Entry) -> Seq<Entry> {
    let p = slot(s, e.name) as int;
    if p < s.len() && s[p].name == e.name {
        s.update(p, e)
    } else {
        s.insert(p, e)
    }
}

/// The entries after every observation of `log` has been recorded in turn.
pub open spec fn absorb(s: Seq<Entry>, log: Seq<Entry>) -> Seq<Entry>
    decreases log.len(),
{
    if log.len() == 0 {
        s
    } else {
        record(absorb(s, log.drop_last()), log.last())
    }
}

/// The observations of a translation in the order in which they were made:
/// none, one, or those of a first part followed by those of a second.
pub enum Log {
    Nil,
    One(Entry),
    Cat(Box<Log>, Box<Log>),
}

impl Log {
    /// The observations as a sequence, first to last.
    pub open spec fn flat(self) -> Seq<Entry>
        decreases self,
    {
        match self {
            Log::Nil => Seq::empty(),
            Log::One(e) => seq![e],
            Log::Cat(a, b) => a.flat() + b.flat(),
        }
    }

    /// The observations of `self`, then those of `next`.
    pub open spec fn and(self, next: Log) -> Log {
        Log::Cat(Box::new(self), Box::new(next))
    }
}

/// The entries after every observation of `log` has been recorded in turn.
pub open spec fn replay(s: Seq<Entry>, log: Log) -> Seq<Entry>
    decreases log,
{
    match log {
        Log::Nil => s,
        Log::One(e) => record(s, e),
        Log::Cat(a, b) => replay(replay(s, *a), *b),
    }
}

/// Names grow strictly from each entry to the next.
pub open spec fn strictly_sorted(s: Seq<Entry>) -> bool {
    forall|i: int, j: int| 0 <= i < j < s.len() ==> lex_lt(#[trigger] s[i].name, #[trigger] s[j].name)
}

/// Some entry of `s` bears `name`.
pub open spec fn has_name(s: Seq<Entry>, name: Seq<char>) -> bool {
    exists|i: int| 0 <= i < s.len() && #[trigger] s[i].name == name
}

pub proof fn slot_bounds(s: Seq<Entry>, name: Seq<char>)
    ensures
        slot(s, name) <= s.len(),
        forall|j: int| 0 <= j < slot(s, name) ==> lex_lt(#[trigger] s[j].name, name),
        slot(s, name) < s.len() ==> !lex_lt(s[slot(s, name) as int].name, name),
    decreases s.len(),
{
    if s.len() == 0 || !lex_lt(s[0].name, name) {
    } else {
        let t = s.drop_first();
        slot_bounds(t, name);
        assert forall|j: int| 0 <= j < slot(s, name) implies lex_lt(#[trigger] s[j].name, name) by {
            if j > 0 {
                assert(s[j] == t[j - 1]);
            }
        }
        if slot(s, name) < s.len() {
            assert(s[slot(s, name) as int] == t[slot(t, name) as int]);
        }
    }
}

/// The slot is the one index with only smaller names before it and no
/// smaller name at it.
pub proof fn slot_is(s: Seq<Entry>, name: Seq<char>, i: int)
    requires
        0 <= i <= s.len(),
        forall|j: int| 0 <= j < i ==> lex_lt(#[trigger] s[j].name, name),
        i < s.len() ==> !lex_lt(s[i].name, name),
    ensures
        slot(s, name) == i,
    decreases s.len(),
{
    if i == 0 {
    } else {
        let t = s.drop_first();
        assert(lex_lt(s[0].name, name));
        assert forall|j: int| 0 <= j < i - 1 implies lex_lt(#[trigger] t[j].name, name) by {
            assert(t[j] == s[j + 1]);
        }
        if i - 1 < t.len() {
            assert(t[i - 1] == s[i]);
        }
        slot_is(t, name, i - 1);
    }
}

/// Recording an observation keeps the names strictly sorted.
pub proof fn record_keeps_sorted(s: Seq<Entry>, e: Entry)
    requires
        strictly_sorted(s),
    ensures
        strictly_sorted(record(s, e)),
{
    slot_bounds(s, e.name);
    let p = slot(s, e.name) as int;
    let r = record(s, e);
    assert forall|i: int, j: int| 0 <= i < j < r.len() implies lex_lt(
        #[trigger] r[i].name,
        #[trigger] r[j].name,
    ) by {
        if p < s.len() && s[p].name == e.name {
            assert(r[i].name == s[i].name);
            assert(r[j].name == s[j].name);
        } else {
            if p < s.len() {
                lex_lt_total(s[p].name, e.name);
            }
            if j < p {
                assert(r[i] == s[i] && r[j] == s[j]);
            } else if j == p {
                assert(r[i] == s[i]);
            } else if i < p {
                assert(r[i] == s[i] && r[j] == s[j - 1]);
            } else if i == p {
                assert(r[j] == s[j - 1]);
                if j - 1 > p {
                    lex_lt_transitive(e.name, s[p].name, s[j - 1].name);
                }
            } else {
                assert(r[i] == s[i - 1] && r[j] == s[j - 1]);
            }
        }
    }
}

/// After an observation is recorded its name is present with its
/// definition, and every other name is present exactly if it was before.
pub proof fn record_names(s: Seq<Entry>, e: Entry, name: Seq<char>)
    ensures
        has_name(record(s, e), name) <==> (name == e.name || has_name(s, name)),
        record(s, e)[slot(s, e.name) as int] == e,
        slot(s, e.name) < record(s, e).len(),
{
    slot_bounds(s, e.name);
    let p = slot(s, e.name) as int;
    let r = record(s, e);
    if has_name(r, name) {
        let i = choose|i: int| 0 <= i < r.len() && #[trigger] r[i].name == name;
        if i != p {
            if p < s.len() && s[p].name == e.name {
                assert(s[i].name == name);
            } else if i < p {
                assert(s[i].name == name);
            } else {
                assert(s[i - 1].name == name);
            }
        }
    }
    if name == e.name {
        assert(r[p].name == name);
    }
    if has_name(s, name) && name != e.name {
        let i = choose|i: int| 0 <= i < s.len() && #[trigger] s[i].name == name;
        if p < s.len() && s[p].name == e.name {
            assert(r[i].name == name);
        } else if i < p {
            assert(r[i].name == name);
        } else {
            assert(r[i + 1].name == name);
        }
    }
}

/// Recording a log of one observation is recording that observation.
pub proof fn absorb_one(s: Seq<Entry>, e: Entry)
    ensures
        absorb(s, seq![e]) == record(s, e),
        absorb(s, Seq::empty()) == s,
{
    assert(seq![e].drop_last() =~= Seq::<Entry>::empty());
    assert(seq![e].last() == e);
    reveal_with_fuel(absorb, 2);
}

/// Recording a log in two parts is recording it whole.
pub proof fn absorb_concat(s: Seq<Entry>, a: Seq<Entry>, b: Seq<Entry>)
    ensures
        absorb(absorb(s, a), b) == absorb(s, a + b),
    decreases b.len(),
{
    if b.len() == 0 {
        assert(a + b =~= a);
    } else {
        absorb_concat(s, a, b.drop_last());
        assert((a + b).drop_last() =~= a + b.drop_last());
        assert((a + b).last() == b.last());
    }
}

/// Replaying a log records its observations first to last.
pub proof fn replay_flat(s: Seq<Entry>, log: Log)
    ensures
        replay(s, log) == absorb(s, log.flat()),
    decreases log,
{
    match log {
        Log::Nil => {},
        Log::One(e) => {
            absorb_one(s, e);
        },
        Log::Cat(a, b) => {
            replay_flat(s, *a);
            replay_flat(replay(s, *a), *b);
            absorb_concat(s, a.flat(), b.flat());
        },
    }
}

/// The entries that the records `v` stand for.
pub open spec fn entries_of(v: Seq<Record>) -> Seq<Entry> {
    v.map_values(|r: Record| r.entry())
}

/// A registry: the abstract entities observed so far, each name once, in
/// strictly increasing order of the names.
pub struct Registry {
    records: Vec<Record>,
}

impl Registry {
    /// The entries in the order in which the registry holds them.
    pub closed spec fn entries(self) -> Seq<Entry> {
        entries_of(self.records@)
    }

    #[verifier::type_invariant]
    closed spec fn sorted(self) -> bool {
        strictly_sorted(entries_of(self.records@))
    }

    /// A registry without entries.
    pub fn new() -> (r: Registry)
        ensures
            r.entries() == Seq::<Entry>::empty(),
    {
        let r = Registry { records: Vec::new() };
        assert(r.entries() =~= Seq::<Entry>::empty());
        r
    }

    /// The number of entries.
    pub fn len(&self) -> (n: usize)
        ensures
            n == self.entries().len(),
            strictly_sorted(self.entries()),
    {
        proof {
            use_type_invariant(self);
        }
        self.records.len()
    }

    /// The entry at position `i`.
    pub fn get(&self, i: usize) -> (r: &Record)
        requires
            i < self.entries().len(),
        ensures
            r.entry() == self.entries()[i as int],
    {
        &self.records[i]
    }

    /// A copy of the records, in order.
    pub fn snapshot(&self) -> (v: Vec<Record>)
        ensures
            entries_of(v@) == self.entries(),
            strictly_sorted(self.entries()),
    {
        proof {
            use_type_invariant(self);
        }
        let mut v: Vec<Record> = Vec::new();
        let mut i: usize = 0;
        assert(entries_of(v@) =~= self.entries().take(0));
        while i < self.records.len()
            invariant
                i <= self.records.len(),
                entries_of(v@) == self.entries().take(i as int),
            decreases self.records.len() - i,
        {
            let r = &self.records[i];
            let ghost before = v@;
            let copy = Record { name: r.name.clone(), def: r.def };
            assert(copy.entry() == self.entries()[i as int]);
            v.push(copy);
            assert(entries_of(before.push(copy)) =~= entries_of(before).push(copy.entry()));
            assert(entries_of(v@) =~= self.entries().take(i + 1));
            i += 1;
        }
        assert(self.entries().take(i as int) =~= self.entries());
        v
    }

    /// Records that `name` was observed for `def`.
    pub fn insert(&mut self, name: String, def: DefId)
        ensures
            final(self).entries() == record(old(self).entries(), Entry { name: name@, def }),
            strictly_sorted(final(self).entries()),
    {
        proof {
            use_type_invariant(&*self);
            record_keeps_sorted(self.entries(), Entry { name: name@, def });
        }
        let ghost before = self.entries();
        let ghost e = Entry { name: name@, def };
        let key = chars_of(name.as_str());
        let mut i: usize = 0;
        let mut same = false;
        while i < self.records.len()
            invariant_except_break
                !same,
            invariant
                i <= self.records.len(),
                self.entries() == before,
                key@ == name@,
                forall|j: int| 0 <= j < i ==> lex_lt(#[trigger] before[j].name, name@),
            ensures
                i <= self.records.len(),
                i < self.records.len() ==> !lex_lt(before[i as int].name, name@),
                same <==> (i < self.records.len() && before[i as int].name == name@),
            decreases self.records.len() - i,
        {
            let p = compare_chars(&chars_of(self.records[i].name.as_str()), &key);
            proof {
                assert(before[i as int] == self.records@[i as int].entry());
                lex_lt_total(before[i as int].name, name@);
            }
            match p {
                Place::Before => {
                    i += 1;
                },
                Place::Same => {
                    same = true;
                    break;
                },
                Place::After => {
                    break;
                },
            }
        }
        proof {
            slot_is(before, name@, i as int);
        }
        let rest: usize = if same {
            i + 1
        } else {
            i
        };
        let mut fresh: Vec<Record> = Vec::new();
        copy_records(&mut fresh, &self.records, 0, i);
        let ghost head = fresh@;
        fresh.push(Record { name, def });
        let ghost middle = fresh@;
        copy_records(&mut fresh, &self.records, rest, self.records.len());
        proof {
            let after = entries_of(fresh@);
            assert(entries_of(head) =~= before.subrange(0, i as int));
            assert(entries_of(middle) =~= before.subrange(0, i as int).push(e));
            assert(after =~= before.subrange(0, i as int).push(e) + before.subrange(
                rest as int,
                before.len() as int,
            ));
            if same {
                assert(after =~= before.update(i as int, e));
            } else {
                assert(after =~= before.insert(i as int, e));
            }
        }
        self.records = fresh;
    }
}

/// Appends copies of the records of `from` at the positions from `start`
/// up to `end` to `out`.
fn copy_records(out: &mut Vec<Record>, from: &Vec<Record>, start: usize, end: usize)
    requires
        start <= end <= from.len(),
    ensures
        entries_of(final(out)@) == entries_of(old(out)@) + entries_of(from@).subrange(
            start as int,
            end as int,
        ),
{
    let mut k: usize = start;
    assert(entries_of(out@) =~= entries_of(old(out)@) + entries_of(from@).subrange(
        start as int,
        start as int,
    ));
    while k < end
        invariant
            start <= k <= end <= from.len(),
            entries_of(out@) == entries_of(old(out)@) + entries_of(from@).subrange(
                start as int,
                k as int,
            ),
        decreases end - k,
    {
        let r = &from[k];
        let ghost before = out@;
        let copy = Record { name: r.name.clone(), def: r.def };
        out.push(copy);
        assert(entries_of(before.push(copy)) =~= entries_of(before).push(copy.entry()));
        assert(entries_of(out@) =~= entries_of(old(out)@) + entries_of(from@).subrange(
            start as int,
            k + 1,
        ));
        k += 1;
    }
}

} // verus!
