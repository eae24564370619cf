//! Classification of call sites: constructor of an enum variant, call of a
//! definite function, or call through the bound of a type parameter.

use vstd::prelude::*;
use vstd::string::*;
use crate::context::{delivers, TransCtxt};
use crate::defs::NodeId;
use crate::errors::{Construct, Table, TransError};
use crate::mangle::{mangled_def_name, mangled_name};
use crate::outcome::{counted, counted_list, pure_outcome, views, Effect, Outcome};
use crate::registry::{replay, Entry};
use crate::tables::{lookup, Def, MethodCallee, MethodOrigin, Tables, TraitItemId};
use crate::text::{decimal, push_decimal};
use crate::ty_enc::substs_outcome;

verus! {

/// The enum variant that the node `id` resolves to, if it resolves to one:
/// the mangled name of the variant and its discriminant.
#[verifier::opaque]
pub open spec fn variant_at(tables: &Tables, ns: Seq<char>, id: NodeId) -> Result<
    Option<(Seq<char>, u64)>,
    TransError,
> {
    if tables.def_map@.contains_key(id) && tables.def_map@[id] is Variant {
        let v = tables.def_map@[id]->Variant_1;
        if !tables.discriminants@.contains_key(v) {
            Err(TransError::Missing(Table::Discriminants))
        } else {
            match mangled_name(tables, ns, v) {
                Ok(name) => Ok(Some((name, tables.discriminants@[v]))),
                Err(e) => Err(e),
            }
        }
    } else {
        Ok(None)
    }
}

/// The text that constructs an enum variant, before its arguments.
pub open spec fn variant_head(tag: Seq<char>, v: (Seq<char>, u64)) -> Seq<char> {
    tag + " "@ + v.0 + " "@ + decimal(v.1 as nat)
}

/// The outcome of naming the method that a call resolves to. A method
/// reached through the bound of a type parameter is named after the trait's
/// own method and observed as an abstract function.
#[verifier::opaque]
pub open spec fn callee_outcome(tables: &Tables, ns: Seq<char>, origin: MethodOrigin) -> Outcome {
    match origin {
        MethodOrigin::Static(d) => pure_outcome(mangled_name(tables, ns, d)),
        MethodOrigin::TypeParam(t, n) => {
            if !tables.trait_items@.contains_key(t) || n >= tables.trait_items@[t]@.len() {
                pure_outcome(Err(TransError::Missing(Table::TraitItems)))
            } else {
                match tables.trait_items@[t]@[n as int] {
                    TraitItemId::Method(d) => {
                        let name = mangled_name(tables, ns, d);
                        Outcome {
                            text: name->Ok_0,
                            effect: Effect::guarded(
                                name,
                                Effect::saw_fn(Entry { name: name->Ok_0, def: d }),
                            ),
                        }
                    },
                    TraitItemId::Type(_) => pure_outcome(
                        Err(TransError::Unsupported(Construct::AssocTypeAsMethod)),
                    ),
                }
            }
        },
        MethodOrigin::Other => pure_outcome(Err(TransError::Unsupported(Construct::MethodOrigin))),
    }
}

/// The outcome of a call of the method `callee` on arguments whose
/// translations are `args`.
#[verifier::opaque]
pub open spec fn method_call_outcome(
    tables: &Tables,
    ns: Seq<char>,
    callee: MethodCallee,
    args: Seq<Seq<char>>,
) -> Outcome {
    let name = callee_outcome(tables, ns, callee.origin);
    let s = substs_outcome(tables, ns, callee.substs);
    Outcome {
        text: "call "@ + name.text + " "@ + s.text + " "@ + counted(args),
        effect: name.effect.followed_by(s.effect),
    }
}

/// The outcome of the head of a call whose callee is the path node `id`:
/// all of the call but its arguments.
#[verifier::opaque]
pub open spec fn call_head_outcome(tables: &Tables, ns: Seq<char>, id: NodeId) -> Outcome {
    match variant_at(tables, ns, id) {
        Err(e) => pure_outcome(Err(e)),
        Ok(Some(v)) => pure_outcome(Ok(variant_head("enum_literal"@, v))),
        Ok(None) => {
            if !tables.def_map@.contains_key(id) {
                pure_outcome(Err(TransError::Missing(Table::Resolutions)))
            } else {
                let def = tables.def_map@[id];
                let d = def.spec_def_id();
                let name = mangled_name(tables, ns, d);
                let s = if tables.item_substs@.contains_key(id) {
                    substs_outcome(tables, ns, tables.item_substs@[id])
                } else {
                    pure_outcome(Ok("0 0"@))
                };
                Outcome {
                    text: "call "@ + name->Ok_0 + " "@ + s.text,
                    effect: Effect::guarded(
                        name,
                        if def matches Def::StaticMethod(_, true) {
                            s.effect.followed_by(Effect::saw_fn(Entry { name: name->Ok_0, def: d }))
                        } else {
                            s.effect
                        },
                    ),
                }
            }
        },
    }
}

/// Looks up whether the node `id` resolves to an enum variant.
pub fn find_variant(tables: &Tables, ns: &str, id: NodeId) -> (r: Result<
    Option<(String, u64)>,
    TransError,
>)
    ensures
        match r {
            Ok(Some(v)) => variant_at(tables, ns@, id) == Ok::<_, TransError>(Some((v.0@, v.1))),
            Ok(None) => variant_at(tables, ns@, id) == Ok::<Option<(Seq<char>, u64)>, TransError>(
                None,
            ),
            Err(e) => variant_at(tables, ns@, id) == Err::<Option<(Seq<char>, u64)>, _>(e),
        },
{
    reveal(variant_at);
    match lookup(&tables.def_map, id) {
        Some(Def::Variant(_, v)) => {
            let idx = match tables.discriminants.get(*v) {
                Some(i) => *i,
                None => {
                    return Err(TransError::Missing(Table::Discriminants));
                },
            };
            let name = mangled_def_name(tables, ns, *v)?;
            Ok(Some((name, idx)))
        },
        _ => Ok(None),
    }
}

/// The head of the text that constructs the variant `v` under `tag`.
pub fn variant_head_string(tag: &str, name: &String, idx: u64) -> (r: String)
    ensures
        r@ == variant_head(tag@, (name@, idx)),
{
    let mut out = String::from_str(tag);
    out.append(" ");
    out.append(name.as_str());
    out.append(" ");
    push_decimal(&mut out, idx);
    out
}

/// Names the method that a call resolves to.
pub fn callee_name(tables: &Tables, ctx: &mut TransCtxt, origin: &MethodOrigin) -> (r: Result<
    String,
    TransError,
>)
    ensures
        delivers(*old(ctx), *final(ctx), r, callee_outcome(tables, old(ctx).ns(), *origin)),
{
    reveal(callee_outcome);
    match origin {
        MethodOrigin::Static(d) => mangled_def_name(tables, ctx.crate_name.as_str(), *d),
        MethodOrigin::TypeParam(t, n) => {
            let items = match tables.trait_items.get(*t) {
                Some(items) => items,
                None => {
                    return Err(TransError::Missing(Table::TraitItems));
                },
            };
            if *n >= items.len() {
                return Err(TransError::Missing(Table::TraitItems));
            }
            match items[*n] {
                TraitItemId::Method(d) => {
                    let name = mangled_def_name(tables, ctx.crate_name.as_str(), d)?;
                    ctx.observe_fn(name.clone(), d);
                    Ok(name)
                },
                TraitItemId::Type(_) => Err(TransError::Unsupported(Construct::AssocTypeAsMethod)),
            }
        },
        MethodOrigin::Other => Err(TransError::Unsupported(Construct::MethodOrigin)),
    }
}

/// Translates a call of the method `callee` on the translated arguments
/// `args`.
pub fn trans_method_call(
    tables: &Tables,
    ctx: &mut TransCtxt,
    callee: &MethodCallee,
    args: Vec<String>,
) -> (r: Result<String, TransError>)
    ensures
        delivers(
            *old(ctx),
            *final(ctx),
            r,
            method_call_outcome(tables, old(ctx).ns(), *callee, views(args@)),
        ),
{
    reveal(method_call_outcome);
    let name = callee_name(tables, ctx, &callee.origin)?;
    let s = callee.substs.trans(tables, ctx)?;
    let mut out = String::from_str("call ");
    out.append(name.as_str());
    out.append(" ");
    out.append(s.as_str());
    out.append(" ");
    out.append(counted_list(&args).as_str());
    Ok(out)
}

/// Translates the head of a call whose callee is the path node `id`.
pub fn trans_call_head(tables: &Tables, ctx: &mut TransCtxt, id: NodeId) -> (r: Result<
    String,
    TransError,
>)
    ensures
        delivers(*old(ctx), *final(ctx), r, call_head_outcome(tables, old(ctx).ns(), id)),
{
    reveal(call_head_outcome);
    reveal_with_fuel(replay, 3);
    match find_variant(tables, ctx.crate_name.as_str(), id)? {
        Some(v) => Ok(variant_head_string("enum_literal", &v.0, v.1)),
        None => {
            let def = match lookup(&tables.def_map, id) {
                Some(def) => *def,
                None => {
                    return Err(TransError::Missing(Table::Resolutions));
                },
            };
            let d = def.def_id();
            let name = mangled_def_name(tables, ctx.crate_name.as_str(), d)?;
            let s = match lookup(&tables.item_substs, id) {
                Some(substs) => substs.trans(tables, ctx)?,
                None => String::from_str("0 0"),
            };
            match def {
                Def::StaticMethod(_, true) => {
                    ctx.observe_fn(name.clone(), d);
                },
                _ => {},
            }
            let mut out = String::from_str("call ");
            out.append(name.as_str());
            out.append(" ");
            out.append(s.as_str());
            Ok(out)
        },
    }
}

} // verus!
