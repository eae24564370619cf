//! Laws that hold of the translation as a whole.

use vstd::prelude::*;
use vstd::string::*;
use crate::adjust::{deref_outcome, pointee, reborrow_ty, wrapped};
use crate::errors::TransError;
use crate::mangle::{escape, mangled_name, plain, sanitized};
use crate::order::lex_lt_irreflexive;
use crate::process::{observed_fns, observed_types, translation, Program};
use crate::ast::Item;
use crate::item_spec::{
    error_line, item_outcome, items_outcomes, lines_outcome, local_def, visit_outcome,
};
use crate::outcome::text_of;
use crate::registry::{
    absorb, has_name, record_keeps_sorted, record_names, replay, replay_flat, strictly_sorted,
    Entry, Log,
};
use crate::tables::{AutoRef, Tables};
use crate::text::{hex_digit_char, hex_fixed};
use crate::ty_enc::ty_outcome;
use crate::types::Ty;

verus! {

/// Translation is deterministic: two runs over the same program, with the
/// same suppression list and namespace, return the same text or the same
/// failure.
pub proof fn translation_deterministic(
    p: &Program,
    filter: Seq<String>,
    ns: Seq<char>,
    first: Result<String, TransError>,
    second: Result<String, TransError>,
)
    requires
        text_of(first) == translation(p, filter, ns),
        text_of(second) == translation(p, filter, ns),
    ensures
        text_of(first) == text_of(second),
{
}

/// Sixteen to the power `w`.
pub open spec fn pow16(w: nat) -> nat
    decreases w,
{
    if w == 0 {
        1
    } else {
        16 * pow16((w - 1) as nat)
    }
}

/// Every hexadecimal digit is a character that may stand in a mangled name.
pub proof fn hex_digit_plain(d: nat)
    ensures
        plain(hex_digit_char(d)),
{
}

/// Different hexadecimal digits are written with different characters.
pub proof fn hex_digit_injective(a: nat, b: nat)
    requires
        a < 16,
        b < 16,
        hex_digit_char(a) == hex_digit_char(b),
    ensures
        a == b,
{
}

/// A number written in `w` hexadecimal digits has `w` characters, each of
/// which may stand in a mangled name.
pub proof fn hex_fixed_plain(n: nat, w: nat)
    ensures
        hex_fixed(n, w).len() == w,
        forall|i: int| 0 <= i < w ==> plain(#[trigger] hex_fixed(n, w)[i]),
    decreases w,
{
    if w > 0 {
        hex_fixed_plain(n / 16, (w - 1) as nat);
        hex_digit_plain(n % 16);
    }
}

/// Different numbers below sixteen to the `w` differ in their `w` digits.
pub proof fn hex_fixed_injective(a: nat, b: nat, w: nat)
    requires
        a < pow16(w),
        b < pow16(w),
        hex_fixed(a, w) == hex_fixed(b, w),
    ensures
        a == b,
    decreases w,
{
    if w > 0 {
        let pa = hex_fixed(a / 16, (w - 1) as nat);
        let pb = hex_fixed(b / 16, (w - 1) as nat);
        assert(hex_fixed(a, w).last() == hex_digit_char(a % 16));
        assert(hex_fixed(b, w).last() == hex_digit_char(b % 16));
        assert(hex_fixed(a, w).drop_last() =~= pa);
        assert(hex_fixed(b, w).drop_last() =~= pb);
        hex_digit_injective(a % 16, b % 16);
        hex_fixed_injective(a / 16, b / 16, (w - 1) as nat);
    }
}

/// An escape consists of characters that may stand in a mangled name.
pub proof fn escape_plain(c: char)
    ensures
        forall|i: int| 0 <= i < escape(c).len() ==> plain(#[trigger] escape(c)[i]),
{
    reveal_strlit("_x");
    reveal_strlit("_u");
    reveal_strlit("_U");
    let n = c as u32 as nat;
    hex_fixed_plain(n, 2);
    hex_fixed_plain(n, 4);
    hex_fixed_plain(n, 8);
}

/// Different characters have different escapes, within a width class and
/// across the classes.
pub proof fn escape_injective(a: char, b: char)
    requires
        escape(a) == escape(b),
    ensures
        a == b,
{
    reveal_strlit("_x");
    reveal_strlit("_u");
    reveal_strlit("_U");
    let na = a as u32 as nat;
    let nb = b as u32 as nat;
    hex_fixed_plain(na, 2);
    hex_fixed_plain(na, 4);
    hex_fixed_plain(na, 8);
    hex_fixed_plain(nb, 2);
    hex_fixed_plain(nb, 4);
    hex_fixed_plain(nb, 8);
    assert(pow16(2) == 256 && pow16(4) == 65536 && pow16(8) == 0x1_0000_0000) by {
        reveal_with_fuel(pow16, 9);
    }
    if na <= 0xff {
        assert(escape(a).len() == 4);
        assert(escape(a).skip(2) =~= hex_fixed(na, 2));
        assert(escape(b).skip(2) =~= hex_fixed(nb, 2));
        hex_fixed_injective(na, nb, 2);
    } else if na <= 0xffff {
        assert(escape(a).len() == 6);
        assert(escape(a).skip(2) =~= hex_fixed(na, 4));
        assert(escape(b).skip(2) =~= hex_fixed(nb, 4));
        hex_fixed_injective(na, nb, 4);
    } else {
        assert(escape(a).len() == 10);
        assert(escape(a).skip(2) =~= hex_fixed(na, 8));
        assert(escape(b).skip(2) =~= hex_fixed(nb, 8));
        hex_fixed_injective(na, nb, 8);
    }
}

/// The sanitizer emits only letters, digits and underscores.
pub proof fn sanitized_plain(s: Seq<char>)
    ensures
        forall|i: int| 0 <= i < sanitized(s).len() ==> plain(#[trigger] sanitized(s)[i]),
    decreases s.len(),
{
    if s.len() > 0 {
        let before = sanitized(s.drop_last());
        sanitized_plain(s.drop_last());
        escape_plain(s.last());
        assert forall|i: int| 0 <= i < sanitized(s).len() implies plain(
            #[trigger] sanitized(s)[i],
        ) by {
            if i < before.len() {
                assert(sanitized(s)[i] == before[i]);
            } else if plain(s.last()) {
                assert(sanitized(s)[i] == s.last());
            } else {
                assert(sanitized(s)[i] == escape(s.last())[i - before.len()]);
            }
        }
    }
}

/// Every character of `s` may stand in a mangled name as it is.
pub open spec fn all_plain(s: Seq<char>) -> bool {
    forall|i: int| 0 <= i < s.len() ==> plain(#[trigger] s[i])
}

/// The sanitizer changes nothing in a name that needs no escape.
pub proof fn sanitized_keeps_plain(s: Seq<char>)
    requires
        all_plain(s),
    ensures
        sanitized(s) == s,
    decreases s.len(),
{
    if s.len() > 0 {
        assert(plain(s[s.len() - 1]));
        assert forall|i: int| 0 <= i < s.drop_last().len() implies plain(
            #[trigger] s.drop_last()[i],
        ) by {
            assert(s.drop_last()[i] == s[i]);
        }
        sanitized_keeps_plain(s.drop_last());
        assert(s.drop_last().push(s.last()) =~= s);
    } else {
        assert(s =~= Seq::<char>::empty());
    }
}

/// Two definitions whose names before sanitation differ and need no
/// escape have different mangled names.
pub proof fn mangling_injective_on_plain_names(
    tables: &Tables,
    ns: Seq<char>,
    a: crate::defs::DefId,
    b: crate::defs::DefId,
)
    requires
        tables.paths@.contains_key(a),
        tables.paths@.contains_key(b),
        all_plain(crate::mangle::raw_name(ns, a, tables.paths@[a]@)),
        all_plain(crate::mangle::raw_name(ns, b, tables.paths@[b]@)),
        crate::mangle::raw_name(ns, a, tables.paths@[a]@) != crate::mangle::raw_name(
            ns,
            b,
            tables.paths@[b]@,
        ),
    ensures
        mangled_name(tables, ns, a) != mangled_name(tables, ns, b),
{
    reveal(mangled_name);
    sanitized_keeps_plain(crate::mangle::raw_name(ns, a, tables.paths@[a]@));
    sanitized_keeps_plain(crate::mangle::raw_name(ns, b, tables.paths@[b]@));
}

/// A mangled name holds only letters, digits and underscores.
pub proof fn mangled_name_plain(tables: &Tables, ns: Seq<char>, d: crate::defs::DefId)
    requires
        mangled_name(tables, ns, d) is Ok,
    ensures
        forall|i: int|
            0 <= i < mangled_name(tables, ns, d)->Ok_0.len() ==> plain(
                #[trigger] mangled_name(tables, ns, d)->Ok_0[i],
            ),
{
    reveal(mangled_name);
    sanitized_plain(crate::mangle::raw_name(ns, d, tables.paths@[d]@));
}

/// Dereferencing a re-borrow gives back the type of the value that was
/// re-borrowed: for a reference and for a raw pointer alike, the type
/// under the pointer is the type of that value, and the dereference is
/// annotated with the encoding of that type.
pub proof fn deref_of_reborrow(
    tables: &Tables,
    ns: Seq<char>,
    a: AutoRef,
    t: Ty,
    text: Seq<char>,
)
    requires
        !(a is Other),
    ensures
        pointee(reborrow_ty(a, t)) == Some(t),
        deref_outcome(tables, ns, reborrow_ty(a, t), text).1 == t,
        deref_outcome(tables, ns, reborrow_ty(a, t), text).0.effect == ty_outcome(
            tables,
            ns,
            t,
        ).effect,
        deref_outcome(tables, ns, reborrow_ty(a, t), text).0.text == wrapped(
            ty_outcome(tables, ns, t).text,
            " deref "@,
            text,
        ),
{
    reveal(deref_outcome);
}

/// In a strictly sorted registry no name occurs twice.
pub proof fn sorted_names_distinct(s: Seq<Entry>, i: int, j: int)
    requires
        strictly_sorted(s),
        0 <= i < s.len(),
        0 <= j < s.len(),
        i != j,
    ensures
        s[i].name != s[j].name,
{
    lex_lt_irreflexive(s[i].name);
}

/// Recording a log keeps a registry strictly sorted.
pub proof fn absorb_keeps_sorted(s: Seq<Entry>, log: Seq<Entry>)
    requires
        strictly_sorted(s),
    ensures
        strictly_sorted(absorb(s, log)),
    decreases log.len(),
{
    if log.len() > 0 {
        absorb_keeps_sorted(s, log.drop_last());
        record_keeps_sorted(absorb(s, log.drop_last()), log.last());
    }
}

/// After a log is recorded, the registry holds exactly the names it held
/// before and the names of the log.
pub proof fn absorb_names(s: Seq<Entry>, log: Seq<Entry>, name: Seq<char>)
    ensures
        has_name(absorb(s, log), name) <==> (has_name(s, name) || has_name(log, name)),
    decreases log.len(),
{
    if log.len() > 0 {
        let rest = log.drop_last();
        absorb_names(s, rest, name);
        record_names(absorb(s, rest), log.last(), name);
        if has_name(log, name) {
            let i = choose|i: int| 0 <= i < log.len() && #[trigger] log[i].name == name;
            if i < log.len() - 1 {
                assert(rest[i].name == name);
            }
        }
        if has_name(rest, name) {
            let i = choose|i: int| 0 <= i < rest.len() && #[trigger] rest[i].name == name;
            assert(log[i].name == name);
        }
        if name == log.last().name {
            assert(log[log.len() - 1].name == name);
        }
    }
}

/// Every abstract entity that a translation observes is in the registry
/// afterwards under its name, the registry holds no name that was not
/// observed, and it holds each name once, in strictly increasing order.
pub proof fn registry_complete(log: Log, name: Seq<char>)
    ensures
        has_name(replay(Seq::empty(), log), name) <==> has_name(log.flat(), name),
        strictly_sorted(replay(Seq::empty(), log)),
        forall|i: int, j: int|
            0 <= i < j < replay(Seq::empty(), log).len() ==> replay(Seq::empty(), log)[i].name
                != replay(Seq::empty(), log)[j].name,
{
    let s = replay(Seq::empty(), log);
    replay_flat(Seq::empty(), log);
    absorb_names(Seq::empty(), log.flat(), name);
    absorb_keeps_sorted(Seq::empty(), log.flat());
    assert forall|i: int, j: int| 0 <= i < j < s.len() implies s[i].name != s[j].name by {
        sorted_names_distinct(s, i, j);
    }
}

/// The abstract functions and the abstract types are declared in strictly
/// increasing order of their names: each name once, whatever the order in
/// which the items were traversed.
pub proof fn declarations_sorted(p: &Program, filter: Seq<String>, ns: Seq<char>)
    ensures
        strictly_sorted(observed_fns(p, filter, ns)),
        strictly_sorted(observed_types(p, filter, ns)),
{
    let items = lines_outcome(items_outcomes(&p.tables, ns, filter, p.items@));
    registry_complete(items.effect.fns, Seq::empty());
    registry_complete(items.effect.types, Seq::empty());
    let fns = lines_outcome(
        crate::decls::abstract_fns_outcomes(&p.tables, ns, observed_fns(p, filter, ns)),
    );
    let first = replay(Seq::empty(), items.effect.types);
    replay_flat(first, fns.effect.types);
    absorb_keeps_sorted(first, fns.effect.types.flat());
}

/// Every abstract function that the translation of the items observes is
/// declared under its name, and no other function is declared.
pub proof fn observed_fns_declared(p: &Program, filter: Seq<String>, ns: Seq<char>, name: Seq<char>)
    ensures
        has_name(observed_fns(p, filter, ns), name) <==> has_name(
            lines_outcome(items_outcomes(&p.tables, ns, filter, p.items@)).effect.fns.flat(),
            name,
        ),
{
    let items = lines_outcome(items_outcomes(&p.tables, ns, filter, p.items@));
    registry_complete(items.effect.fns, name);
}

/// Every abstract type that the translation of the items or the
/// declaration of the abstract functions observes is declared under its
/// name, and no other type is declared.
pub proof fn observed_types_declared(
    p: &Program,
    filter: Seq<String>,
    ns: Seq<char>,
    name: Seq<char>,
)
    ensures
        has_name(observed_types(p, filter, ns), name) <==> (has_name(
            lines_outcome(items_outcomes(&p.tables, ns, filter, p.items@)).effect.types.flat(),
            name,
        ) || has_name(
            lines_outcome(
                crate::decls::abstract_fns_outcomes(&p.tables, ns, observed_fns(p, filter, ns)),
            ).effect.types.flat(),
            name,
        )),
{
    let items = lines_outcome(items_outcomes(&p.tables, ns, filter, p.items@));
    let fns = lines_outcome(
        crate::decls::abstract_fns_outcomes(&p.tables, ns, observed_fns(p, filter, ns)),
    );
    registry_complete(items.effect.types, name);
    let first = replay(Seq::empty(), items.effect.types);
    replay_flat(first, fns.effect.types);
    absorb_names(first, fns.effect.types.flat(), name);
}

/// A failure inside one item never stops the items after it: visiting an
/// item fails only where a name cannot be mangled, and any other failure
/// becomes the error line of the item.
pub proof fn failures_are_isolated(tables: &Tables, ns: Seq<char>, filter: Seq<String>, item: Item)
    ensures
        visit_outcome(tables, ns, filter, item).effect.failure matches Some(e)
            ==> e.spec_is_fatal(),
        ({
            let inner = item_outcome(tables, ns, filter, item).effect.failure;
            let name = mangled_name(tables, ns, local_def(item.id));
            let visit = visit_outcome(tables, ns, filter, item);
            name is Ok && inner is Some && !inner->Some_0.spec_is_fatal() ==> visit.text
                == error_line(name->Ok_0, inner->Some_0) + "\n"@ && visit.effect.failure is None
        }),
{
    reveal(mangled_name);
}

} // verus!
