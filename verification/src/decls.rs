//! The declarations of the abstract entities that a run has observed,
//! emitted after all items, in the order of their names.

use vstd::prelude::*;
use vstd::string::*;
use crate::context::{advanced, delivers, delivers_each, list_step, TransCtxt};
use crate::defs::DefId;
use crate::errors::{Construct, Table, TransError};
use crate::item_enc::concat_all;
use crate::item_spec::lines_outcome;
use crate::outcome::{
    as_result, counted, counted_list, effects_of, effects_step, effects_stop, pure_outcome,
    text_of, texts_of, views, views_push, Outcome,
};
use crate::registry::{entries_of, replay, strictly_sorted, Entry};
use crate::tables::{FnOutput, ParamDef, Signature, Tables};
use crate::text::{decimal, push_decimal};
use crate::ty_enc::{space_text, ty_outcome};
use crate::types::Ty;

verus! {

/// The name of a generic parameter: the prefix of its space and its index.
pub open spec fn param_def_text(p: ParamDef) -> Seq<char> {
    space_text(p.space) + decimal(p.index as nat)
}

/// The names of the generic parameters `ps`.
pub open spec fn param_defs_texts(ps: Seq<ParamDef>) -> Seq<Seq<char>> {
    Seq::new(ps.len(), |i: int| param_def_text(ps[i]))
}

/// The outcome of declaring the parameter at position `i` of an abstract
/// function, of type `t`.
pub open spec fn decl_arg_outcome(tables: &Tables, ns: Seq<char>, i: nat, t: Ty) -> Outcome {
    let o = ty_outcome(tables, ns, t);
    Outcome { text: "arg"@ + decimal(i) + " "@ + o.text, effect: o.effect }
}

/// The outcomes of declaring each parameter of an abstract function with
/// the parameter types `inputs`.
pub open spec fn decl_args_outcomes(tables: &Tables, ns: Seq<char>, inputs: Seq<Ty>) -> Seq<
    Outcome,
> {
    Seq::new(inputs.len(), |i: int| decl_arg_outcome(tables, ns, i as nat, inputs[i]))
}

/// The outcome of encoding what a function returns.
pub open spec fn fn_output_outcome(tables: &Tables, ns: Seq<char>, out: FnOutput) -> Outcome {
    match out {
        FnOutput::Converging(t) => ty_outcome(tables, ns, t),
        FnOutput::Diverging => pure_outcome(Ok("bottom"@)),
    }
}

/// The line that declares an abstract function.
pub open spec fn abstract_fn_form(
    name: Seq<char>,
    regions: Seq<char>,
    types: Seq<char>,
    args: Seq<char>,
    ret: Seq<char>,
) -> Seq<char> {
    "abstract_fn "@ + name + " "@ + regions + " "@ + types + " args "@ + args + " return "@ + ret
        + "\n"@
}

/// The outcome of declaring the abstract function `e`. The signature is
/// that of the trait method's own definition.
#[verifier::opaque]
pub open spec fn abstract_fn_outcome(tables: &Tables, ns: Seq<char>, e: Entry) -> Outcome {
    if !tables.signatures@.contains_key(e.def) {
        pure_outcome(Err(TransError::Missing(Table::Signatures)))
    } else {
        match tables.signatures@[e.def] {
            Signature::Type => pure_outcome(
                Err(TransError::Unsupported(Construct::NotATraitMethod)),
            ),
            Signature::Method(g, inputs, output) => {
                let a = decl_args_outcomes(tables, ns, inputs@);
                let r = fn_output_outcome(tables, ns, output);
                Outcome {
                    text: abstract_fn_form(
                        e.name,
                        counted(param_defs_texts(g.regions@)),
                        counted(param_defs_texts(g.types@)),
                        counted(texts_of(a)),
                        r.text,
                    ),
                    effect: effects_of(a).followed_by(r.effect),
                }
            },
        }
    }
}

/// The outcomes of declaring each abstract function of `entries`.
pub open spec fn abstract_fns_outcomes(tables: &Tables, ns: Seq<char>, entries: Seq<Entry>) -> Seq<
    Outcome,
> {
    Seq::new(entries.len(), |i: int| abstract_fn_outcome(tables, ns, entries[i]))
}

/// The line that declares the abstract type `e`, with the generics of the
/// trait it belongs to.
pub open spec fn abstract_type_text(tables: &Tables, e: Entry) -> Result<Seq<char>, TransError> {
    if !tables.trait_generics@.contains_key(e.def) {
        Err(TransError::Missing(Table::TraitGenerics))
    } else {
        let g = tables.trait_generics@[e.def];
        Ok(
            "abstract_type "@ + e.name + " "@ + counted(param_defs_texts(g.regions@)) + " "@
                + counted(param_defs_texts(g.types@)) + "\n"@,
        )
    }
}

/// The outcomes of declaring each abstract type of `entries`.
pub open spec fn abstract_types_outcomes(tables: &Tables, entries: Seq<Entry>) -> Seq<Outcome> {
    Seq::new(entries.len(), |i: int| pure_outcome(abstract_type_text(tables, entries[i])))
}

/// The declarations of the abstract types `entries`, one line for each,
/// or the first failure to declare one.
pub open spec fn abstract_types_text(tables: &Tables, entries: Seq<Entry>) -> Result<
    Seq<char>,
    TransError,
> {
    as_result(lines_outcome(abstract_types_outcomes(tables, entries)))
}

impl ParamDef {
    /// The name of this parameter.
    pub fn trans(&self) -> (r: String)
        ensures
            r@ == param_def_text(*self),
    {
        let mut out = String::from_str(self.space.trans());
        push_decimal(&mut out, self.index as u64);
        out
    }
}

/// The encoding of the sequence of the names of the parameters `ps`.
pub fn trans_param_defs(ps: &Vec<ParamDef>) -> (r: String)
    ensures
        r@ == counted(param_defs_texts(ps@)),
{
    let ghost names = param_defs_texts(ps@);
    let mut strs: Vec<String> = Vec::new();
    let mut i: usize = 0;
    assert(views(strs@) =~= names.take(0));
    while i < ps.len()
        invariant
            i <= ps.len(),
            names == param_defs_texts(ps@),
            views(strs@) == names.take(i as int),
        decreases ps.len() - i,
    {
        let ghost before = strs@;
        strs.push(ps[i].trans());
        proof {
            views_push(before, strs@.last());
            assert(strs@ == before.push(strs@.last()));
            assert(views(before).push(strs@.last()@) =~= names.take(i + 1));
        }
        i += 1;
    }
    assert(names.take(i as int) =~= names);
    counted_list(&strs)
}

/// Declares each parameter of an abstract function with the parameter
/// types `inputs`, in order.
pub fn trans_decl_args(tables: &Tables, ctx: &mut TransCtxt, inputs: &Vec<Ty>) -> (r: Result<
    Vec<String>,
    TransError,
>)
    ensures
        delivers_each(
            *old(ctx),
            *final(ctx),
            r,
            decl_args_outcomes(tables, old(ctx).ns(), inputs@),
        ),
{
    let ghost c0 = *ctx;
    let ghost parts = decl_args_outcomes(tables, ctx.ns(), inputs@);
    let mut strs: Vec<String> = Vec::new();
    let mut i: usize = 0;
    assert(parts.take(0) =~= Seq::<Outcome>::empty());
    assert(views(strs@) =~= texts_of(parts.take(0)));
    while i < inputs.len()
        invariant
            i <= inputs.len(),
            c0 == *old(ctx),
            parts == decl_args_outcomes(tables, c0.ns(), inputs@),
            advanced(c0, *ctx, effects_of(parts.take(i as int))),
            effects_of(parts.take(i as int)).failure is None,
            views(strs@) == texts_of(parts.take(i as int)),
        decreases inputs.len() - i,
    {
        let ghost ci = *ctx;
        let r = match inputs[i].trans(tables, ctx) {
            Ok(t) => {
                let mut out = String::from_str("arg");
                push_decimal(&mut out, i as u64);
                out.append(" ");
                out.append(t.as_str());
                Ok(out)
            },
            Err(e) => Err(e),
        };
        proof {
            list_step(c0, ci, *ctx, parts, i as int, r);
        }
        match r {
            Ok(s) => {
                strs.push(s);
                assert(views(strs@) =~= texts_of(parts.take(i + 1)));
            },
            Err(e) => {
                return Err(e);
            },
        }
        i += 1;
    }
    assert(parts.take(i as int) =~= parts);
    Ok(strs)
}

impl FnOutput {
    /// Encodes what a function returns.
    pub fn trans(&self, tables: &Tables, ctx: &mut TransCtxt) -> (r: Result<String, TransError>)
        ensures
            delivers(*old(ctx), *final(ctx), r, fn_output_outcome(tables, old(ctx).ns(), *self)),
    {
        match self {
            FnOutput::Converging(t) => t.trans(tables, ctx),
            FnOutput::Diverging => Ok(String::from_str("bottom")),
        }
    }
}

/// Declares the abstract function `name`, observed for `def`.
pub fn trans_abstract_fn(tables: &Tables, ctx: &mut TransCtxt, name: &String, def: DefId) -> (r:
    Result<String, TransError>)
    ensures
        delivers(
            *old(ctx),
            *final(ctx),
            r,
            abstract_fn_outcome(tables, old(ctx).ns(), Entry { name: name@, def }),
        ),
{
    reveal(abstract_fn_outcome);
    reveal_with_fuel(replay, 3);
    match tables.signatures.get(def) {
        None => Err(TransError::Missing(Table::Signatures)),
        Some(Signature::Type) => Err(TransError::Unsupported(Construct::NotATraitMethod)),
        Some(Signature::Method(g, inputs, output)) => {
            let args = trans_decl_args(tables, ctx, inputs)?;
            let ret = output.trans(tables, ctx)?;
            let mut out = String::from_str("abstract_fn ");
            out.append(name.as_str());
            out.append(" ");
            out.append(trans_param_defs(&g.regions).as_str());
            out.append(" ");
            out.append(trans_param_defs(&g.types).as_str());
            out.append(" args ");
            out.append(counted_list(&args).as_str());
            out.append(" return ");
            out.append(ret.as_str());
            out.append("\n");
            Ok(out)
        },
    }
}

/// Declares every abstract function that the context has observed, one
/// line for each entry of the registry in its order, which is the strictly
/// increasing order of the names.
pub fn print_abstract_fn_decls(tables: &Tables, ctx: &mut TransCtxt) -> (r: Result<
    String,
    TransError,
>)
    ensures
        delivers(
            *old(ctx),
            *final(ctx),
            r,
            lines_outcome(
                abstract_fns_outcomes(
                    tables,
                    old(ctx).ns(),
                    old(ctx).observed_abstract_fns.entries(),
                ),
            ),
        ),
        strictly_sorted(old(ctx).observed_abstract_fns.entries()),
{
    let names = ctx.observed_abstract_fns.snapshot();
    let ghost c0 = *ctx;
    let ghost parts = abstract_fns_outcomes(tables, ctx.ns(), entries_of(names@));
    let mut strs: Vec<String> = Vec::new();
    let mut i: usize = 0;
    assert(parts.take(0) =~= Seq::<Outcome>::empty());
    assert(views(strs@) =~= texts_of(parts.take(0)));
    while i < names.len()
        invariant
            i <= names.len(),
            c0 == *old(ctx),
            entries_of(names@) == c0.observed_abstract_fns.entries(),
            strictly_sorted(c0.observed_abstract_fns.entries()),
            parts == abstract_fns_outcomes(tables, c0.ns(), entries_of(names@)),
            advanced(c0, *ctx, effects_of(parts.take(i as int))),
            effects_of(parts.take(i as int)).failure is None,
            views(strs@) == texts_of(parts.take(i as int)),
        decreases names.len() - i,
    {
        let ghost ci = *ctx;
        let r = trans_abstract_fn(tables, ctx, &names[i].name, names[i].def);
        proof {
            assert(entries_of(names@)[i as int] == names@[i as int].entry());
            list_step(c0, ci, *ctx, parts, i as int, r);
        }
        match r {
            Ok(s) => {
                strs.push(s);
                assert(views(strs@) =~= texts_of(parts.take(i + 1)));
            },
            Err(e) => {
                return Err(e);
            },
        }
        i += 1;
    }
    assert(parts.take(i as int) =~= parts);
    Ok(concat_all(&strs))
}

/// Declares the abstract type `name`, observed for the trait `def`.
pub fn trans_abstract_type(tables: &Tables, name: &String, def: DefId) -> (r: Result<
    String,
    TransError,
>)
    ensures
        text_of(r) == abstract_type_text(tables, Entry { name: name@, def }),
{
    match tables.trait_generics.get(def) {
        None => Err(TransError::Missing(Table::TraitGenerics)),
        Some(g) => {
            let mut out = String::from_str("abstract_type ");
            out.append(name.as_str());
            out.append(" ");
            out.append(trans_param_defs(&g.regions).as_str());
            out.append(" ");
            out.append(trans_param_defs(&g.types).as_str());
            out.append("\n");
            Ok(out)
        },
    }
}

/// Declares every abstract type that the context has observed, one line
/// for each entry of the registry in its order, which is the strictly
/// increasing order of the names.
pub fn print_abstract_type_decls(tables: &Tables, ctx: &TransCtxt) -> (r: Result<
    String,
    TransError,
>)
    ensures
        text_of(r) == abstract_types_text(tables, ctx.observed_abstract_types.entries()),
        strictly_sorted(ctx.observed_abstract_types.entries()),
{
    let reg = &ctx.observed_abstract_types;
    let n = reg.len();
    let ghost parts = abstract_types_outcomes(tables, reg.entries());
    let mut strs: Vec<String> = Vec::new();
    let mut i: usize = 0;
    assert(parts.take(0) =~= Seq::<Outcome>::empty());
    assert(views(strs@) =~= texts_of(parts.take(0)));
    while i < reg.len()
        invariant
            i <= reg.entries().len(),
            *reg == ctx.observed_abstract_types,
            strictly_sorted(reg.entries()),
            parts == abstract_types_outcomes(tables, reg.entries()),
            effects_of(parts.take(i as int)).failure is None,
            views(strs@) == texts_of(parts.take(i as int)),
        decreases reg.entries().len() - i,
    {
        let rec = reg.get(i);
        let r = trans_abstract_type(tables, &rec.name, rec.def);
        proof {
            effects_step(parts, i as int);
        }
        match r {
            Ok(s) => {
                strs.push(s);
                assert(views(strs@) =~= texts_of(parts.take(i + 1)));
            },
            Err(e) => {
                proof {
                    effects_stop(parts, i + 1);
                }
                return Err(e);
            },
        }
        i += 1;
    }
    assert(parts.take(i as int) =~= parts);
    Ok(concat_all(&strs))
}

} // verus!
