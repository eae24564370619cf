//! The translation of top-level items and of the members of
//! implementations and foreign blocks.

use vstd::prelude::*;
use vstd::string::*;
use crate::ast::{
    Arg, ExplicitSelf, FnDecl, ForeignItem, FunctionRetTy, Generics, Impl, ImplItem, Item,
    ItemKind, Lifetime, Method, MethodKind, PatKind, PathParameters, SourceTy, StructField,
    TraitRef, Variant, VariantKind,
};
use crate::context::{advanced, delivers, delivers_each, list_step, TransCtxt};
use crate::defs::{DefId, NodeId, ParamSpace};
use crate::errors::{Construct, Table, TransError};
use crate::expr_enc::finish_list;
use crate::expr_spec::expr_outcome;
use crate::item_spec::{
    arg_outcome, args_outcomes, assoc_type_outcome, combined_lifetimes, combined_params, concat,
    dtor_text, enum_variant_outcome, enum_variants_outcomes, error_line, fn_decl_outcome, fn_form,
    foreign_item_outcome, foreign_items_outcomes, generics_text, impl_clause_outcome,
    impl_item_outcome, impl_items_outcomes, item_outcome, lifetime_name, lifetime_names,
    lifetime_outcomes, lifetime_text, local_def, method_args, method_clause_outcome,
    method_outcome, param_names, ret_ty_outcome, self_arg_outcome, source_tys_outcomes,
    struct_field_outcome, struct_fields_outcomes, suppressed, trait_name,
};
use crate::item_spec::{dtor_kind_text, fn_decl_form, fn_head};
use crate::mangle::{mangled_def_name, mangled_name};
use crate::outcome::{
    as_result, counted_list, effects_of, effects_step, effects_stop, list_outcome, text_of,
    texts_of, views, views_push, Outcome,
};
use crate::registry::replay;
use crate::tables::{lookup, DefRegion, DtorKind, Tables};
use crate::text::push_decimal;
use crate::ty_enc::space_text;

verus! {

/// Encodes each source type of `ts`, in order.
pub fn trans_source_tys(tables: &Tables, ctx: &mut TransCtxt, ts: &Vec<SourceTy>) -> (r: Result<
    Vec<String>,
    TransError,
>)
    ensures
        delivers_each(*old(ctx), *final(ctx), r, source_tys_outcomes(tables, old(ctx).ns(), ts@)),
{
    let ghost c0 = *ctx;
    let ghost parts = source_tys_outcomes(tables, ctx.ns(), ts@);
    let mut strs: Vec<String> = Vec::new();
    let mut i: usize = 0;
    assert(parts.take(0) =~= Seq::<Outcome>::empty());
    assert(views(strs@) =~= texts_of(parts.take(0)));
    while i < ts.len()
        invariant
            i <= ts.len(),
            c0 == *old(ctx),
            parts == source_tys_outcomes(tables, c0.ns(), ts@),
            advanced(c0, *ctx, effects_of(parts.take(i as int))),
            effects_of(parts.take(i as int)).failure is None,
            views(strs@) == texts_of(parts.take(i as int)),
        decreases ts.len() - i,
    {
        let ghost ci = *ctx;
        let r = ts[i].trans(tables, ctx);
        proof {
            list_step(c0, ci, *ctx, parts, i as int, r);
        }
        match r {
            Ok(s) => {
                strs.push(s);
                assert(views(strs@) =~= texts_of(parts.take(i + 1)));
            },
            Err(e) => {
                return Err(e);
            },
        }
        i += 1;
    }
    assert(parts.take(i as int) =~= parts);
    Ok(strs)
}

/// Translates each field of `fs`, in order.
pub fn trans_struct_fields(tables: &Tables, ctx: &mut TransCtxt, fs: &Vec<StructField>) -> (r: Result<
    Vec<String>,
    TransError,
>)
    ensures
        delivers_each(*old(ctx), *final(ctx), r, struct_fields_outcomes(tables, old(ctx).ns(), fs@)),
{
    let ghost c0 = *ctx;
    let ghost parts = struct_fields_outcomes(tables, ctx.ns(), fs@);
    let mut strs: Vec<String> = Vec::new();
    let mut i: usize = 0;
    assert(parts.take(0) =~= Seq::<Outcome>::empty());
    assert(views(strs@) =~= texts_of(parts.take(0)));
    while i < fs.len()
        invariant
            i <= fs.len(),
            c0 == *old(ctx),
            parts == struct_fields_outcomes(tables, c0.ns(), fs@),
            advanced(c0, *ctx, effects_of(parts.take(i as int))),
            effects_of(parts.take(i as int)).failure is None,
            views(strs@) == texts_of(parts.take(i as int)),
        decreases fs.len() - i,
    {
        let ghost ci = *ctx;
        let r = fs[i].trans(tables, ctx);
        proof {
            list_step(c0, ci, *ctx, parts, i as int, r);
        }
        match r {
            Ok(s) => {
                strs.push(s);
                assert(views(strs@) =~= texts_of(parts.take(i + 1)));
            },
            Err(e) => {
                return Err(e);
            },
        }
        i += 1;
    }
    assert(parts.take(i as int) =~= parts);
    Ok(strs)
}

/// Translates each variant of `vs`, in order.
pub fn trans_variants(tables: &Tables, ctx: &mut TransCtxt, vs: &Vec<Variant>) -> (r: Result<
    Vec<String>,
    TransError,
>)
    ensures
        delivers_each(*old(ctx), *final(ctx), r, enum_variants_outcomes(tables, old(ctx).ns(), vs@)),
{
    let ghost c0 = *ctx;
    let ghost parts = enum_variants_outcomes(tables, ctx.ns(), vs@);
    let mut strs: Vec<String> = Vec::new();
    let mut i: usize = 0;
    assert(parts.take(0) =~= Seq::<Outcome>::empty());
    assert(views(strs@) =~= texts_of(parts.take(0)));
    while i < vs.len()
        invariant
            i <= vs.len(),
            c0 == *old(ctx),
            parts == enum_variants_outcomes(tables, c0.ns(), vs@),
            advanced(c0, *ctx, effects_of(parts.take(i as int))),
            effects_of(parts.take(i as int)).failure is None,
            views(strs@) == texts_of(parts.take(i as int)),
        decreases vs.len() - i,
    {
        let ghost ci = *ctx;
        let r = vs[i].trans(tables, ctx);
        proof {
            list_step(c0, ci, *ctx, parts, i as int, r);
        }
        match r {
            Ok(s) => {
                strs.push(s);
                assert(views(strs@) =~= texts_of(parts.take(i + 1)));
            },
            Err(e) => {
                return Err(e);
            },
        }
        i += 1;
    }
    assert(parts.take(i as int) =~= parts);
    Ok(strs)
}

/// Translates each member of the implementation `imp`, in order.
pub fn trans_impl_items(tables: &Tables, ctx: &mut TransCtxt, imp: &Impl) -> (r: Result<
    Vec<String>,
    TransError,
>)
    ensures
        delivers_each(*old(ctx), *final(ctx), r, impl_items_outcomes(tables, old(ctx).ns(), *imp)),
{
    let ghost c0 = *ctx;
    let ghost parts = impl_items_outcomes(tables, ctx.ns(), *imp);
    let mut strs: Vec<String> = Vec::new();
    let mut i: usize = 0;
    assert(parts.take(0) =~= Seq::<Outcome>::empty());
    assert(views(strs@) =~= texts_of(parts.take(0)));
    while i < imp.items.len()
        invariant
            i <= imp.items.len(),
            c0 == *old(ctx),
            parts == impl_items_outcomes(tables, c0.ns(), *imp),
            advanced(c0, *ctx, effects_of(parts.take(i as int))),
            effects_of(parts.take(i as int)).failure is None,
            views(strs@) == texts_of(parts.take(i as int)),
        decreases imp.items.len() - i,
    {
        let ghost ci = *ctx;
        let r = imp.items[i].trans(tables, ctx, imp);
        proof {
            list_step(c0, ci, *ctx, parts, i as int, r);
        }
        match r {
            Ok(s) => {
                strs.push(s);
                assert(views(strs@) =~= texts_of(parts.take(i + 1)));
            },
            Err(e) => {
                return Err(e);
            },
        }
        i += 1;
    }
    assert(parts.take(i as int) =~= parts);
    Ok(strs)
}

/// Translates each item of a foreign block, in order.
pub fn trans_foreign_items(
    tables: &Tables,
    ctx: &mut TransCtxt,
    abi: &String,
    items: &Vec<ForeignItem>,
) -> (r: Result<Vec<String>, TransError>)
    ensures
        delivers_each(
            *old(ctx),
            *final(ctx),
            r,
            foreign_items_outcomes(tables, old(ctx).ns(), abi@, items@),
        ),
{
    let ghost c0 = *ctx;
    let ghost parts = foreign_items_outcomes(tables, ctx.ns(), abi@, items@);
    let mut strs: Vec<String> = Vec::new();
    let mut i: usize = 0;
    assert(parts.take(0) =~= Seq::<Outcome>::empty());
    assert(views(strs@) =~= texts_of(parts.take(0)));
    while i < items.len()
        invariant
            i <= items.len(),
            c0 == *old(ctx),
            parts == foreign_items_outcomes(tables, c0.ns(), abi@, items@),
            advanced(c0, *ctx, effects_of(parts.take(i as int))),
            effects_of(parts.take(i as int)).failure is None,
            views(strs@) == texts_of(parts.take(i as int)),
        decreases items.len() - i,
    {
        let ghost ci = *ctx;
        let r = items[i].trans(tables, ctx, abi);
        proof {
            list_step(c0, ci, *ctx, parts, i as int, r);
        }
        match r {
            Ok(s) => {
                strs.push(s);
                assert(views(strs@) =~= texts_of(parts.take(i + 1)));
            },
            Err(e) => {
                return Err(e);
            },
        }
        i += 1;
    }
    assert(parts.take(i as int) =~= parts);
    Ok(strs)
}

/// Translates each parameter of `args` from position `start` on, in order.
fn trans_args(tables: &Tables, ctx: &mut TransCtxt, args: &Vec<Arg>, start: usize) -> (r:
    Result<Vec<String>, TransError>)
    requires
        start <= args.len(),
    ensures
        delivers_each(
            *old(ctx),
            *final(ctx),
            r,
            args_outcomes(tables, old(ctx).ns(), args@.skip(start as int)),
        ),
{
    let ghost c0 = *ctx;
    let ghost parts = args_outcomes(tables, ctx.ns(), args@.skip(start as int));
    let mut strs: Vec<String> = Vec::new();
    let mut i: usize = start;
    assert(parts.take(0) =~= Seq::<Outcome>::empty());
    assert(views(strs@) =~= texts_of(parts.take(0)));
    while i < args.len()
        invariant
            start <= i <= args.len(),
            c0 == *old(ctx),
            parts == args_outcomes(tables, c0.ns(), args@.skip(start as int)),
            advanced(c0, *ctx, effects_of(parts.take(i - start))),
            effects_of(parts.take(i - start)).failure is None,
            views(strs@) == texts_of(parts.take(i - start)),
        decreases args.len() - i,
    {
        let ghost ci = *ctx;
        let r = args[i].trans(tables, ctx);
        proof {
            assert(args@.skip(start as int)[i - start] == args@[i as int]);
            list_step(c0, ci, *ctx, parts, i - start, r);
        }
        match r {
            Ok(s) => {
                strs.push(s);
                assert(views(strs@) =~= texts_of(parts.take(i - start + 1)));
            },
            Err(e) => {
                return Err(e);
            },
        }
        i += 1;
    }
    assert(parts.take(i - start) =~= parts);
    Ok(strs)
}

/// The name of the lifetime parameter declared at the node `id`.
pub fn lifetime_string(id: NodeId) -> (r: String)
    ensures
        r@ == lifetime_name(id),
{
    let mut out = String::from_str("r_named_0_");
    push_decimal(&mut out, id as u64);
    out
}

/// Appends the names of the lifetime parameters declared at `ids`.
pub fn push_lifetime_strings(out: &mut Vec<String>, ids: &Vec<NodeId>)
    ensures
        views(final(out)@) == views(old(out)@) + lifetime_names(ids@),
{
    let ghost names = lifetime_names(ids@);
    let mut i: usize = 0;
    assert(views(out@) =~= views(old(out)@) + names.take(0));
    while i < ids.len()
        invariant
            i <= ids.len(),
            names == lifetime_names(ids@),
            views(out@) == views(old(out)@) + names.take(i as int),
        decreases ids.len() - i,
    {
        let ghost before = out@;
        out.push(lifetime_string(ids[i]));
        proof {
            views_push(before, out@.last());
            assert(out@ == before.push(out@.last()));
            assert(views(before).push(out@.last()@) =~= views(old(out)@) + names.take(i + 1));
        }
        i += 1;
    }
    assert(names.take(i as int) =~= names);
}

/// Appends the positional names of `n` type parameters under `prefix`.
pub fn push_param_strings(out: &mut Vec<String>, prefix: &str, n: usize)
    ensures
        views(final(out)@) == views(old(out)@) + param_names(prefix@, n as nat),
{
    let ghost names = param_names(prefix@, n as nat);
    let mut i: usize = 0;
    assert(views(out@) =~= views(old(out)@) + names.take(0));
    while i < n
        invariant
            i <= n,
            names == param_names(prefix@, n as nat),
            views(out@) == views(old(out)@) + names.take(i as int),
        decreases n - i,
    {
        let mut s = String::from_str(prefix);
        push_decimal(&mut s, i as u64);
        let ghost before = out@;
        out.push(s);
        proof {
            views_push(before, out@.last());
            assert(out@ == before.push(out@.last()));
            assert(views(before).push(out@.last()@) =~= views(old(out)@) + names.take(i + 1));
        }
        i += 1;
    }
    assert(names.take(i as int) =~= names);
}

impl Generics {
    /// Flattens the generics of a definition whose type parameters are
    /// in `space`.
    pub fn trans_extra(&self, space: ParamSpace) -> (r: String)
        ensures
            r@ == generics_text(*self, space),
    {
        let mut lifetimes: Vec<String> = Vec::new();
        push_lifetime_strings(&mut lifetimes, &self.lifetimes);
        let mut ty_params: Vec<String> = Vec::new();
        push_param_strings(&mut ty_params, space.trans(), self.ty_params);
        assert(views(lifetimes@) =~= lifetime_names(self.lifetimes@));
        assert(views(ty_params@) =~= param_names(space_text(space), self.ty_params as nat));
        let mut out = counted_list(&lifetimes);
        out.append(" ");
        out.append(counted_list(&ty_params).as_str());
        out
    }
}

/// The lifetimes and the type parameters of the implementation `impl_g`
/// merged with those of its member `fn_g`.
pub fn combine_generics(impl_g: &Generics, fn_g: &Generics) -> (r: (Vec<String>, Vec<String>))
    ensures
        views(r.0@) == combined_lifetimes(*impl_g, *fn_g),
        views(r.1@) == combined_params(*impl_g, *fn_g),
{
    let mut lifetimes: Vec<String> = Vec::new();
    push_lifetime_strings(&mut lifetimes, &impl_g.lifetimes);
    push_lifetime_strings(&mut lifetimes, &fn_g.lifetimes);
    let mut ty_params: Vec<String> = Vec::new();
    push_param_strings(&mut ty_params, "t_", impl_g.ty_params);
    push_param_strings(&mut ty_params, "f_", fn_g.ty_params);
    assert(views(lifetimes@) =~= combined_lifetimes(*impl_g, *fn_g));
    assert(views(ty_params@) =~= combined_params(*impl_g, *fn_g));
    (lifetimes, ty_params)
}

impl Lifetime {
    /// Encodes a lifetime written in the source.
    pub fn trans(&self, tables: &Tables) -> (r: Result<String, TransError>)
        ensures
            text_of(r) == lifetime_text(tables, *self),
    {
        match lookup(&tables.named_regions, self.id) {
            None => Err(TransError::Missing(Table::NamedRegions)),
            Some(DefRegion::Static) => Ok(String::from_str("r_static")),
            Some(DefRegion::EarlyBound(id)) => Ok(lifetime_string(*id)),
            Some(DefRegion::LateBound(id)) => Ok(lifetime_string(*id)),
            Some(DefRegion::Free) => Err(TransError::Unsupported(Construct::FreeRegion)),
        }
    }
}

/// Encodes a sequence of lifetimes.
pub fn trans_lifetimes(tables: &Tables, ls: &Vec<Lifetime>) -> (r: Result<String, TransError>)
    ensures
        text_of(r) == as_result(list_outcome(lifetime_outcomes(tables, ls@))),
{
    let ghost parts = lifetime_outcomes(tables, ls@);
    let mut strs: Vec<String> = Vec::new();
    let mut i: usize = 0;
    assert(parts.take(0) =~= Seq::<Outcome>::empty());
    assert(views(strs@) =~= texts_of(parts.take(0)));
    while i < ls.len()
        invariant
            i <= ls.len(),
            parts == lifetime_outcomes(tables, ls@),
            effects_of(parts.take(i as int)).failure is None,
            views(strs@) == texts_of(parts.take(i as int)),
        decreases ls.len() - i,
    {
        let r = ls[i].trans(tables);
        proof {
            effects_step(parts, i as int);
        }
        match r {
            Ok(s) => {
                strs.push(s);
                assert(views(strs@) =~= texts_of(parts.take(i + 1)));
            },
            Err(e) => {
                proof {
                    effects_stop(parts, i + 1);
                }
                return Err(e);
            },
        }
        i += 1;
    }
    assert(parts.take(i as int) =~= parts);
    Ok(counted_list(&strs))
}

impl FunctionRetTy {
    /// Encodes a return type.
    pub fn trans(&self, tables: &Tables, ctx: &mut TransCtxt) -> (r: Result<String, TransError>)
        ensures
            delivers(*old(ctx), *final(ctx), r, ret_ty_outcome(tables, old(ctx).ns(), *self)),
    {
        match self {
            FunctionRetTy::Return(t) => t.trans(tables, ctx),
            FunctionRetTy::NoReturn => Ok(String::from_str("bottom")),
            FunctionRetTy::DefaultReturn => Ok(String::from_str("[unit]")),
        }
    }
}

impl Arg {
    /// Translates a parameter.
    pub fn trans(&self, tables: &Tables, ctx: &mut TransCtxt) -> (r: Result<String, TransError>)
        ensures
            delivers(*old(ctx), *final(ctx), r, arg_outcome(tables, old(ctx).ns(), *self)),
    {
        let name = match &self.pat.kind {
            PatKind::Ident(name, _) => name,
            _ => {
                return Err(TransError::Unsupported(Construct::ArgPattern));
            },
        };
        let t = self.ty.trans(tables, ctx)?;
        let mut out = name.clone();
        out.append(" ");
        out.append(t.as_str());
        Ok(out)
    }
}

impl StructField {
    /// Translates a field of a struct.
    pub fn trans(&self, tables: &Tables, ctx: &mut TransCtxt) -> (r: Result<String, TransError>)
        ensures
            delivers(
                *old(ctx),
                *final(ctx),
                r,
                struct_field_outcome(tables, old(ctx).ns(), *self),
            ),
    {
        let name = match &self.ident {
            Some(name) => name,
            None => {
                return Err(TransError::Unsupported(Construct::UnnamedField));
            },
        };
        let t = self.ty.trans(tables, ctx)?;
        let mut out = name.clone();
        out.append(" ");
        out.append(t.as_str());
        Ok(out)
    }
}

impl Variant {
    /// Translates a variant of an enum.
    pub fn trans(&self, tables: &Tables, ctx: &mut TransCtxt) -> (r: Result<String, TransError>)
        ensures
            delivers(
                *old(ctx),
                *final(ctx),
                r,
                enum_variant_outcome(tables, old(ctx).ns(), *self),
            ),
    {
        let mut out = mangled_def_name(tables, ctx.crate_name.as_str(), DefId::local(self.id))?;
        match &self.kind {
            VariantKind::Tuple(args) => {
                let l = finish_list(trans_source_tys(tables, ctx, args))?;
                out.append(" ");
                out.append(l.as_str());
                Ok(out)
            },
            VariantKind::Struct => Err(TransError::Unsupported(Construct::VariantKind)),
        }
    }
}

impl FnDecl {
    /// Translates the signature of a function.
    pub fn trans(&self, tables: &Tables, ctx: &mut TransCtxt) -> (r: Result<String, TransError>)
        ensures
            delivers(*old(ctx), *final(ctx), r, fn_decl_outcome(tables, old(ctx).ns(), *self)),
    {
        assert(self.inputs@.skip(0) =~= self.inputs@);
        let a = finish_list(trans_args(tables, ctx, &self.inputs, 0))?;
        let o = self.output.trans(tables, ctx)?;
        let mut out = String::from_str("(args ");
        out.append(a.as_str());
        out.append(") return ");
        out.append(o.as_str());
        Ok(out)
    }
}

impl DtorKind {
    /// Encodes a destructor: the marker `0` where there is none, else `1`
    /// and the mangled name of the implementation of the destructor.
    pub fn trans(&self, tables: &Tables, ns: &str) -> (r: Result<String, TransError>)
        ensures
            text_of(r) == dtor_kind_text(tables, ns@, *self),
    {
        match self {
            DtorKind::NoDtor => Ok(String::from_str("0")),
            DtorKind::TraitDtor(d) => {
                let name = mangled_def_name(tables, ns, *d)?;
                let mut out = String::from_str("1 ");
                out.append(name.as_str());
                Ok(out)
            },
        }
    }
}

/// The destructor of the type `d`.
pub fn trans_dtor(tables: &Tables, ns: &str, d: DefId) -> (r: Result<String, TransError>)
    ensures
        text_of(r) == dtor_text(tables, ns@, d),
{
    tables.ty_dtor(d).trans(tables, ns)
}

/// Translates a struct or an enum under the word `tag`, given the
/// translation `members` of its fields or variants.
fn trans_adt(
    tables: &Tables,
    ns: &str,
    tag: &str,
    id: NodeId,
    generics: &Generics,
    name: &String,
    members: &String,
) -> (r: Result<String, TransError>)
    requires
        mangled_name(tables, ns@, local_def(id)) == Ok::<_, TransError>(name@),
    ensures
        match r {
            Ok(s) => dtor_text(tables, ns@, local_def(id)) is Ok && s@ == tag@ + " "@ + name@
                + " "@ + generics_text(*generics, ParamSpace::Type) + " "@ + members@ + " "@
                + dtor_text(tables, ns@, local_def(id))->Ok_0 + ";"@,
            Err(e) => dtor_text(tables, ns@, local_def(id)) == Err::<Seq<char>, _>(e),
        },
{
    let d = trans_dtor(tables, ns, DefId::local(id))?;
    let mut out = String::from_str(tag);
    out.append(" ");
    out.append(name.as_str());
    out.append(" ");
    out.append(generics.trans_extra(ParamSpace::Type).as_str());
    out.append(" ");
    out.append(members.as_str());
    out.append(" ");
    out.append(d.as_str());
    out.append(";");
    Ok(out)
}

/// The name of the trait that the reference `tr` resolves to.
pub fn trans_trait_name(tables: &Tables, ns: &str, tr: &TraitRef) -> (r: Result<String, TransError>)
    ensures
        text_of(r) == trait_name(tables, ns@, *tr),
{
    match lookup(&tables.def_map, tr.ref_id) {
        Some(def) => mangled_def_name(tables, ns, def.def_id()),
        None => Err(TransError::Missing(Table::Resolutions)),
    }
}

/// Translates the clause that says which item `name` of which trait a
/// member of an implementation for the type `self_ty` satisfies.
pub fn trans_impl_clause(
    tables: &Tables,
    ctx: &mut TransCtxt,
    trait_ref: &TraitRef,
    name: &String,
    self_ty: String,
) -> (r: Result<String, TransError>)
    ensures
        delivers(
            *old(ctx),
            *final(ctx),
            r,
            impl_clause_outcome(tables, old(ctx).ns(), *trait_ref, name@, self_ty@),
        ),
{
    reveal(impl_clause_outcome);
    reveal_with_fuel(replay, 3);
    match &trait_ref.parameters {
        PathParameters::Parenthesized => Err(
            TransError::Unsupported(Construct::ParenthesizedParams),
        ),
        PathParameters::AngleBracketed(ls, ts) => {
            let lifes = trans_lifetimes(tables, ls)?;
            let mut tys = trans_source_tys(tables, ctx, ts)?;
            let ghost before = views(tys@);
            tys.push(self_ty);
            assert(views(tys@) =~= before.push(self_ty@));
            let mut out = trans_trait_name(tables, ctx.crate_name.as_str(), trait_ref)?;
            out.append("_");
            out.append(name.as_str());
            out.append(" ");
            out.append(lifes.as_str());
            out.append(" ");
            out.append(counted_list(&tys).as_str());
            Ok(out)
        },
    }
}

/// Translates the receiver of a method as a parameter of the self type.
pub fn trans_self_arg(
    tables: &Tables,
    ctx: &mut TransCtxt,
    exp_self: &ExplicitSelf,
    self_ty: &SourceTy,
) -> (r: Result<String, TransError>)
    ensures
        delivers(
            *old(ctx),
            *final(ctx),
            r,
            self_arg_outcome(tables, old(ctx).ns(), *exp_self, *self_ty),
        ),
{
    reveal(self_arg_outcome);
    match exp_self {
        ExplicitSelf::Static => Ok(String::new()),
        ExplicitSelf::Value(name) => {
            let t = self_ty.trans(tables, ctx)?;
            let mut out = name.clone();
            out.append(" ");
            out.append(t.as_str());
            Ok(out)
        },
        ExplicitSelf::Region(l, m, name) => {
            let r = match l {
                Some(l) => l.trans(tables)?,
                None => String::from_str("r_anon_0"),
            };
            let t = self_ty.trans(tables, ctx)?;
            let mut out = name.clone();
            out.append(" [");
            out.append(m.ref_tag());
            out.append(" ");
            out.append(r.as_str());
            out.append(" ");
            out.append(t.as_str());
            out.append("]");
            Ok(out)
        },
        ExplicitSelf::Explicit(_, name) => {
            let t = self_ty.trans(tables, ctx)?;
            let mut out = name.clone();
            out.append(" ");
            out.append(t.as_str());
            Ok(out)
        },
    }
}

/// Translates the clause of a method named `name` in the implementation
/// `imp`.
pub fn trans_method_clause(tables: &Tables, ctx: &mut TransCtxt, imp: &Impl, name: &String) -> (r:
    Result<String, TransError>)
    ensures
        delivers(
            *old(ctx),
            *final(ctx),
            r,
            method_clause_outcome(tables, old(ctx).ns(), *imp, name@),
        ),
{
    reveal(method_clause_outcome);
    match &imp.trait_ref {
        None => Ok(String::from_str("0")),
        Some(tr) => {
            let t = imp.self_ty.trans(tables, ctx)?;
            let c = trans_impl_clause(tables, ctx, tr, name, t)?;
            let mut out = String::from_str("1 ");
            out.append(c.as_str());
            Ok(out)
        },
    }
}

/// The head of the text of a function.
pub fn fn_head_string(name: &String, generics: &String, decl: &String, clause: &str) -> (r: String)
    ensures
        r@ == fn_head(name@, generics@, decl@, clause@),
{
    let mut out = String::from_str("fn ");
    out.append(name.as_str());
    out.append(" ");
    out.append(generics.as_str());
    out.append(" ");
    out.append(decl.as_str());
    out.append(" ");
    out.append(clause);
    out
}

/// The text of a function that is declared without its body.
pub fn fn_decl_string(name: &String, generics: &String, decl: &String, clause: &str) -> (r: String)
    ensures
        r@ == fn_decl_form(name@, generics@, decl@, clause@),
{
    let mut out = fn_head_string(name, generics, decl, clause);
    out.append("\n\n");
    out
}

/// The text of a function.
pub fn fn_string(
    name: &String,
    generics: &String,
    decl: &String,
    clause: &str,
    ret: &String,
    body: &String,
) -> (r: String)
    ensures
        r@ == fn_form(name@, generics@, decl@, clause@, ret@, body@),
{
    let mut out = fn_head_string(name, generics, decl, clause);
    out.append(" body ");
    out.append(ret.as_str());
    out.append(" ");
    out.append(body.as_str());
    out.append("\n");
    out
}

/// Translates the method `method` of the implementation `imp`.
pub fn trans_method(tables: &Tables, ctx: &mut TransCtxt, imp: &Impl, method: &Method) -> (r:
    Result<String, TransError>)
    ensures
        delivers(*old(ctx), *final(ctx), r, method_outcome(tables, old(ctx).ns(), *imp, *method)),
{
    reveal(method_outcome);
    reveal_with_fuel(replay, 8);
    let mangled = mangled_def_name(tables, ctx.crate_name.as_str(), DefId::local(method.id))?;
    match &method.kind {
        MethodKind::Mac => Err(TransError::Unsupported(Construct::MacroMethod)),
        MethodKind::Decl(name, generics, exp_self, style, decl, body) => {
            let self_arg = trans_self_arg(tables, ctx, exp_self, &imp.self_ty)?;
            let clause = trans_method_clause(tables, ctx, imp, name)?;
            let has_self = match exp_self {
                ExplicitSelf::Static => false,
                _ => true,
            };
            if has_self && decl.inputs.len() == 0 {
                return Err(TransError::Unsupported(Construct::ReceiverWithoutParam));
            }
            let start: usize = if has_self {
                1
            } else {
                0
            };
            assert(decl.inputs@.skip(0) =~= decl.inputs@);
            let mut others = trans_args(tables, ctx, &decl.inputs, start)?;
            let ghost self_text = self_arg@;
            let ghost other_texts = views(others@);
            let mut arg_strs: Vec<String> = Vec::new();
            if has_self {
                arg_strs.push(self_arg);
            }
            arg_strs.append(&mut others);
            assert(views(arg_strs@) =~= method_args(*exp_self, self_text, other_texts));
            let ret = decl.output.trans(tables, ctx)?;
            let ret_again = decl.output.trans(tables, ctx)?;
            let b = body.trans_body(tables, ctx, style.rules(), "_method")?;
            let g = combine_generics(&imp.generics, generics);
            let mut gs = counted_list(&g.0);
            gs.append(" ");
            gs.append(counted_list(&g.1).as_str());
            let mut d = String::from_str("(args ");
            d.append(counted_list(&arg_strs).as_str());
            d.append(") return ");
            d.append(ret.as_str());
            Ok(fn_string(&mangled, &gs, &d, clause.as_str(), &ret_again, &b))
        },
    }
}

/// Translates the associated type `ident`, which stands for `typ`, of
/// the implementation `imp`.
pub fn trans_assoc_type(
    tables: &Tables,
    ctx: &mut TransCtxt,
    imp: &Impl,
    ident: &String,
    typ: &SourceTy,
) -> (r: Result<String, TransError>)
    ensures
        delivers(
            *old(ctx),
            *final(ctx),
            r,
            assoc_type_outcome(tables, old(ctx).ns(), *imp, ident@, *typ),
        ),
{
    reveal(assoc_type_outcome);
    reveal_with_fuel(replay, 4);
    let self_str = imp.self_ty.trans(tables, ctx)?;
    let typ_str = typ.trans(tables, ctx)?;
    let tr = match &imp.trait_ref {
        Some(tr) => tr,
        None => {
            return Err(TransError::Unsupported(Construct::AssocTypeWithoutTrait));
        },
    };
    let c = trans_impl_clause(tables, ctx, tr, ident, self_str)?;
    let mut out = String::from_str("associated_type ");
    out.append(imp.generics.trans_extra(ParamSpace::Type).as_str());
    out.append(" ");
    out.append(c.as_str());
    out.append(" ");
    out.append(typ_str.as_str());
    Ok(out)
}

/// Turns a failure that concerns the definition `what` alone into the
/// line that reports it. A failure that ends the run stays a failure.
pub fn try_str(r: Result<String, TransError>, what: &str) -> (out: Result<String, TransError>)
    ensures
        match r {
            Ok(s) => out matches Ok(t) && t@ == s@,
            Err(e) => if e.spec_is_fatal() {
                out == Err::<String, _>(e)
            } else {
                out matches Ok(t) && t@ == error_line(what@, e)
            },
        },
{
    match r {
        Ok(s) => Ok(s),
        Err(e) => {
            if e.is_fatal() {
                Err(e)
            } else {
                let mut out = String::from_str("# error with ");
                out.append(what);
                out.append(": ");
                out.append(e.message().as_str());
                Ok(out)
            }
        },
    }
}

/// The line of the output that stands for the definition `name` whose
/// translation returned `r`.
pub fn member_line(r: Result<String, TransError>, name: &String) -> (out: Result<
    String,
    TransError,
>)
    ensures
        match r {
            Ok(s) => out matches Ok(t) && t@ == s@ + "\n"@,
            Err(e) => if e.spec_is_fatal() {
                out == Err::<String, _>(e)
            } else {
                out matches Ok(t) && t@ == error_line(name@, e) + "\n"@
            },
        },
{
    let mut s = try_str(r, name.as_str())?;
    s.append("\n");
    Ok(s)
}

impl ImplItem {
    /// Translates a member of the implementation `imp`.
    pub fn trans(&self, tables: &Tables, ctx: &mut TransCtxt, imp: &Impl) -> (r: Result<
        String,
        TransError,
    >)
        ensures
            delivers(
                *old(ctx),
                *final(ctx),
                r,
                impl_item_outcome(tables, old(ctx).ns(), *imp, *self),
            ),
    {
        match self {
            ImplItem::Method(m) => {
                let name = mangled_def_name(tables, ctx.crate_name.as_str(), DefId::local(m.id))?;
                let r = trans_method(tables, ctx, imp, m);
                member_line(r, &name)
            },
            ImplItem::Type(id, ident, typ) => {
                let name = mangled_def_name(tables, ctx.crate_name.as_str(), DefId::local(*id))?;
                let r = trans_assoc_type(tables, ctx, imp, ident, typ);
                member_line(r, &name)
            },
        }
    }
}

impl ForeignItem {
    /// Translates an item of a foreign block with the calling convention
    /// `abi`.
    pub fn trans(&self, tables: &Tables, ctx: &mut TransCtxt, abi: &String) -> (r: Result<
        String,
        TransError,
    >)
        ensures
            delivers(
                *old(ctx),
                *final(ctx),
                r,
                foreign_item_outcome(tables, old(ctx).ns(), abi@, *self),
            ),
    {
        match self {
            ForeignItem::Fn(id, decl, generics) => {
                let name = mangled_def_name(tables, ctx.crate_name.as_str(), DefId::local(*id))?;
                let r = match decl.trans(tables, ctx) {
                    Ok(d) => {
                        let mut out = String::from_str("extern_fn ");
                        out.append(abi.as_str());
                        out.append(" ");
                        out.append(name.as_str());
                        out.append(" ");
                        out.append(generics.trans_extra(ParamSpace::Function).as_str());
                        out.append(" ");
                        out.append(d.as_str());
                        Ok(out)
                    },
                    Err(e) => Err(e),
                };
                member_line(r, &name)
            },
            ForeignItem::Static(id) => {
                let name = mangled_def_name(tables, ctx.crate_name.as_str(), DefId::local(*id))?;
                member_line(Err(TransError::Unsupported(Construct::ForeignStatic)), &name)
            },
        }
    }
}

/// All of `items`, one after the other.
pub fn concat_all(items: &Vec<String>) -> (r: String)
    ensures
        r@ == concat(views(items@)),
{
    let mut out = String::new();
    let ghost texts = views(items@);
    let mut i: usize = 0;
    assert(texts.take(0) =~= Seq::<Seq<char>>::empty());
    while i < items.len()
        invariant
            i <= items.len(),
            texts == views(items@),
            out@ == concat(texts.take(i as int)),
        decreases items.len() - i,
    {
        out.append(items[i].as_str());
        proof {
            assert(texts.take(i + 1).drop_last() =~= texts.take(i as int));
            assert(texts.take(i + 1).last() == items@[i as int]@);
        }
        i += 1;
    }
    assert(texts.take(i as int) =~= texts);
    out
}

/// The text of the parts that were translated to `r`, one after the other.
pub fn finish_lines(r: Result<Vec<String>, TransError>) -> (out: Result<String, TransError>)
    ensures
        match r {
            Ok(v) => out matches Ok(s) && s@ == concat(views(v@)),
            Err(e) => out == Err::<String, _>(e),
        },
{
    match r {
        Ok(v) => Ok(concat_all(&v)),
        Err(e) => Err(e),
    }
}

/// Whether the suppression list `filter` holds `name`.
pub fn suppresses(filter: &Vec<String>, name: &String) -> (b: bool)
    ensures
        b == suppressed(filter@, name@),
{
    let mut i: usize = 0;
    while i < filter.len()
        invariant
            i <= filter.len(),
            forall|j: int| 0 <= j < i ==> (#[trigger] filter@[j])@ != name@,
        decreases filter.len() - i,
    {
        if filter[i] == *name {
            return true;
        }
        i += 1;
    }
    false
}

impl Item {
    /// Translates a top-level item. A function whose mangled name is in
    /// the suppression list `filter_fn` is declared by its head: its body
    /// is not translated and not emitted.
    pub fn trans_extra(&self, tables: &Tables, ctx: &mut TransCtxt, filter_fn: &Vec<String>) -> (r:
        Result<String, TransError>)
        ensures
            delivers(
                *old(ctx),
                *final(ctx),
                r,
                item_outcome(tables, old(ctx).ns(), filter_fn@, *self),
            ),
    {
        reveal(item_outcome);
        reveal_with_fuel(expr_outcome, 1);
        reveal_with_fuel(replay, 4);
        match &self.kind {
            ItemKind::Struct(fields, g) => {
                let name = mangled_def_name(tables, ctx.crate_name.as_str(), DefId::local(self.id))?;
                let f = finish_list(trans_struct_fields(tables, ctx, fields))?;
                trans_adt(tables, ctx.crate_name.as_str(), "struct", self.id, g, &name, &f)
            },
            ItemKind::Enum(variants, g) => {
                let name = mangled_def_name(tables, ctx.crate_name.as_str(), DefId::local(self.id))?;
                let v = finish_list(trans_variants(tables, ctx, variants))?;
                trans_adt(tables, ctx.crate_name.as_str(), "enum", self.id, g, &name, &v)
            },
            ItemKind::Fn(decl, style, g, body) => {
                let name = mangled_def_name(tables, ctx.crate_name.as_str(), DefId::local(self.id))?;
                let d = decl.trans(tables, ctx)?;
                let gs = g.trans_extra(ParamSpace::Function);
                if suppresses(filter_fn, &name) {
                    Ok(fn_decl_string(&name, &gs, &d, "0"))
                } else {
                    let o = decl.output.trans(tables, ctx)?;
                    let b = body.trans_body(tables, ctx, style.rules(), "_ItemFn")?;
                    Ok(fn_string(&name, &gs, &d, "0", &o, &b))
                }
            },
            ItemKind::Impl(imp) => finish_lines(trans_impl_items(tables, ctx, imp)),
            ItemKind::Const(ty, x) => {
                let mut out = String::from_str("const ");
                let name = mangled_def_name(tables, ctx.crate_name.as_str(), DefId::local(self.id))?;
                let t = ty.trans(tables, ctx)?;
                let v = x.trans(tables, ctx)?;
                out.append(name.as_str());
                out.append(" ");
                out.append(t.as_str());
                out.append(" ");
                out.append(v.as_str());
                Ok(out)
            },
            ItemKind::ForeignMod(abi, items) => finish_lines(
                trans_foreign_items(tables, ctx, abi, items),
            ),
            ItemKind::Other => Ok(String::new()),
        }
    }
}

/// Visits a top-level item: translates it, or reports that it cannot be
/// translated, as one line of the output.
pub fn visit_item(tables: &Tables, ctx: &mut TransCtxt, filter_fn: &Vec<String>, item: &Item) -> (r:
    Result<String, TransError>)
    ensures
        delivers(
            *old(ctx),
            *final(ctx),
            r,
            crate::item_spec::visit_outcome(tables, old(ctx).ns(), filter_fn@, *item),
        ),
{
    let name = mangled_def_name(tables, ctx.crate_name.as_str(), DefId::local(item.id))?;
    let r = item.trans_extra(tables, ctx, filter_fn);
    member_line(r, &name)
}

} // verus!
