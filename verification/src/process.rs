//! The translation of a whole program: every item in the order of
//! traversal, then the declarations of the abstract entities observed.

use vstd::prelude::*;
use vstd::string::*;
use crate::ast::Item;
use crate::context::{advanced, delivers_each, list_step, TransCtxt};
use crate::decls::{
    abstract_fns_outcomes, abstract_types_text, print_abstract_fn_decls,
    print_abstract_type_decls,
};
use crate::errors::TransError;
use crate::item_enc::{finish_lines, visit_item};
use crate::item_spec::{items_outcomes, lines_outcome};
use crate::outcome::{effects_of, text_of, texts_of, views, Outcome};
use crate::registry::{replay, Entry};
use crate::tables::Tables;

verus! {

/// An annotated program: its items in the order in which a traversal of
/// the syntax tree visits them, and the query tables.
pub struct Program {
    pub items: Vec<Item>,
    pub tables: Tables,
}

/// The abstract functions that a run registers while it translates the
/// items of `p`, in the order of their names.
pub open spec fn observed_fns(p: &Program, filter: Seq<String>, ns: Seq<char>) -> Seq<Entry> {
    replay(Seq::empty(), lines_outcome(items_outcomes(&p.tables, ns, filter, p.items@)).effect.fns)
}

/// The abstract types that a run registers while it translates the items
/// of `p` and declares the abstract functions, in the order of their
/// names.
pub open spec fn observed_types(p: &Program, filter: Seq<String>, ns: Seq<char>) -> Seq<Entry> {
    replay(
        replay(
            Seq::empty(),
            lines_outcome(items_outcomes(&p.tables, ns, filter, p.items@)).effect.types,
        ),
        lines_outcome(
            abstract_fns_outcomes(&p.tables, ns, observed_fns(p, filter, ns)),
        ).effect.types,
    )
}

/// The output of translating the program `p` in the namespace `ns` with
/// the suppression list `filter`: the text of every item, then the
/// declarations of the abstract functions, then those of the abstract
/// types. The run fails if a name cannot be mangled or a declaration
/// cannot be written.
pub open spec fn translation(p: &Program, filter: Seq<String>, ns: Seq<char>) -> Result<
    Seq<char>,
    TransError,
> {
    let items = lines_outcome(items_outcomes(&p.tables, ns, filter, p.items@));
    let fns = lines_outcome(abstract_fns_outcomes(&p.tables, ns, observed_fns(p, filter, ns)));
    let types = abstract_types_text(&p.tables, observed_types(p, filter, ns));
    if items.effect.failure is Some {
        Err(items.effect.failure->Some_0)
    } else if fns.effect.failure is Some {
        Err(fns.effect.failure->Some_0)
    } else {
        match types {
            Ok(t) => Ok(items.text + fns.text + t),
            Err(e) => Err(e),
        }
    }
}

/// Visits each item of `items`, in order.
pub fn visit_items(
    tables: &Tables,
    ctx: &mut TransCtxt,
    filter_fn: &Vec<String>,
    items: &Vec<Item>,
) -> (r: Result<Vec<String>, TransError>)
    ensures
        delivers_each(
            *old(ctx),
            *final(ctx),
            r,
            items_outcomes(tables, old(ctx).ns(), filter_fn@, items@),
        ),
{
    let ghost c0 = *ctx;
    let ghost parts = items_outcomes(tables, ctx.ns(), filter_fn@, items@);
    let mut strs: Vec<String> = Vec::new();
    let mut i: usize = 0;
    assert(parts.take(0) =~= Seq::<Outcome>::empty());
    assert(views(strs@) =~= texts_of(parts.take(0)));
    while i < items.len()
        invariant
            i <= items.len(),
            c0 == *old(ctx),
            parts == items_outcomes(tables, c0.ns(), filter_fn@, items@),
            advanced(c0, *ctx, effects_of(parts.take(i as int))),
            effects_of(parts.take(i as int)).failure is None,
            views(strs@) == texts_of(parts.take(i as int)),
        decreases items.len() - i,
    {
        let ghost ci = *ctx;
        let r = visit_item(tables, ctx, filter_fn, &items[i]);
        proof {
            list_step(c0, ci, *ctx, parts, i as int, r);
        }
        match r {
            Ok(s) => {
                strs.push(s);
                assert(views(strs@) =~= texts_of(parts.take(i + 1)));
            },
            Err(e) => {
                return Err(e);
            },
        }
        i += 1;
    }
    assert(parts.take(i as int) =~= parts);
    Ok(strs)
}

/// Translates the program `program` in the namespace `crate_name`. The
/// functions whose mangled names are in `filter_fn` are declared by their
/// heads: their bodies are not emitted.
pub fn process(program: &Program, filter_fn: Vec<String>, crate_name: String) -> (r: Result<
    String,
    TransError,
>)
    ensures
        text_of(r) == translation(program, filter_fn@, crate_name@),
{
    let mut ctx = TransCtxt::new(crate_name);
    let mut out = finish_lines(visit_items(&program.tables, &mut ctx, &filter_fn, &program.items))?;
    let fns = print_abstract_fn_decls(&program.tables, &mut ctx)?;
    let types = print_abstract_type_decls(&program.tables, &ctx)?;
    out.append(fns.as_str());
    out.append(types.as_str());
    Ok(out)
}

} // verus!
