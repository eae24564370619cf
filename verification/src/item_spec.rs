//! What the translation of top-level items amounts to.

use vstd::prelude::*;
use crate::ast::{
    Arg, ExplicitSelf, FnDecl, ForeignItem, FunctionRetTy, Generics, Impl, ImplItem, Item, ItemKind,
    Lifetime, Method, MethodKind, PathParameters, SourceTy, StructField, TraitRef, Variant,
    VariantKind,
};
use crate::defs::{DefId, NodeId, ParamSpace, LOCAL_CRATE};
use crate::errors::{error_text, Construct, Table, TransError};
use crate::expr_spec::{binding_name, body_outcome, expr_outcome, rules_text};
use crate::mangle::mangled_name;
use crate::outcome::{
    as_result, counted, effects_of, list_outcome, pure_outcome, texts_of, Effect, Outcome,
};
use crate::tables::{DefRegion, DtorKind, Tables};
use crate::text::decimal;
use crate::ty_enc::{ref_tag, source_ty_outcome, space_text};

verus! {

/// The definition that the node `id` of the translated program makes.
pub open spec fn local_def(id: NodeId) -> DefId {
    DefId { krate: LOCAL_CRATE, node: id }
}

/// The name of the lifetime parameter declared at the node `id`.
pub open spec fn lifetime_name(id: NodeId) -> Seq<char> {
    "r_named_0_"@ + decimal(id as nat)
}

/// The names of the lifetime parameters declared at the nodes `ids`.
pub open spec fn lifetime_names(ids: Seq<NodeId>) -> Seq<Seq<char>> {
    Seq::new(ids.len(), |i: int| lifetime_name(ids[i]))
}

/// The positional names of `n` type parameters under `prefix`.
pub open spec fn param_names(prefix: Seq<char>, n: nat) -> Seq<Seq<char>> {
    Seq::new(n, |i: int| prefix + decimal(i as nat))
}

/// The flattened generics of a definition: its lifetimes by their own
/// identity, then its type parameters by position in `space`.
pub open spec fn generics_text(g: Generics, space: ParamSpace) -> Seq<char> {
    counted(lifetime_names(g.lifetimes@)) + " "@ + counted(
        param_names(space_text(space), g.ty_params as nat),
    )
}

/// The lifetimes of an implementation and of one of its members: those
/// of the implementation first.
pub open spec fn combined_lifetimes(imp: Generics, member: Generics) -> Seq<Seq<char>> {
    lifetime_names(imp.lifetimes@) + lifetime_names(member.lifetimes@)
}

/// The type parameters of an implementation and of one of its members:
/// those of the implementation first, each numbered in its own space.
pub open spec fn combined_params(imp: Generics, member: Generics) -> Seq<Seq<char>> {
    param_names("t_"@, imp.ty_params as nat) + param_names("f_"@, member.ty_params as nat)
}

/// The encoding of a lifetime written in the source.
pub open spec fn lifetime_text(tables: &Tables, l: Lifetime) -> Result<Seq<char>, TransError> {
    if !tables.named_regions@.contains_key(l.id) {
        Err(TransError::Missing(Table::NamedRegions))
    } else {
        match tables.named_regions@[l.id] {
            DefRegion::Static => Ok("r_static"@),
            DefRegion::EarlyBound(id) => Ok(lifetime_name(id)),
            DefRegion::LateBound(id) => Ok(lifetime_name(id)),
            DefRegion::Free => Err(TransError::Unsupported(Construct::FreeRegion)),
        }
    }
}

/// The outcomes of encoding each lifetime of `ls`.
pub open spec fn lifetime_outcomes(tables: &Tables, ls: Seq<Lifetime>) -> Seq<Outcome> {
    Seq::new(ls.len(), |i: int| pure_outcome(lifetime_text(tables, ls[i])))
}

/// The outcomes of encoding each source type of `ts`.
pub open spec fn source_tys_outcomes(tables: &Tables, ns: Seq<char>, ts: Seq<SourceTy>) -> Seq<
    Outcome,
> {
    Seq::new(ts.len(), |i: int| source_ty_outcome(tables, ns, ts[i]))
}

/// The outcome of encoding a return type. Where none is written the
/// function returns the unit type; a function that does not return has
/// the marker `bottom` in place of a type.
pub open spec fn ret_ty_outcome(tables: &Tables, ns: Seq<char>, r: FunctionRetTy) -> Outcome {
    match r {
        FunctionRetTy::Return(t) => source_ty_outcome(tables, ns, t),
        FunctionRetTy::NoReturn => pure_outcome(Ok("bottom"@)),
        FunctionRetTy::DefaultReturn => pure_outcome(Ok("[unit]"@)),
    }
}

/// The outcome of translating a parameter: its name and its type.
pub open spec fn arg_outcome(tables: &Tables, ns: Seq<char>, a: Arg) -> Outcome {
    match binding_name(a.pat) {
        None => pure_outcome(Err(TransError::Unsupported(Construct::ArgPattern))),
        Some(name) => {
            let t = source_ty_outcome(tables, ns, a.ty);
            Outcome { text: name + " "@ + t.text, effect: t.effect }
        },
    }
}

/// The outcomes of translating each parameter of `args`.
pub open spec fn args_outcomes(tables: &Tables, ns: Seq<char>, args: Seq<Arg>) -> Seq<Outcome> {
    Seq::new(args.len(), |i: int| arg_outcome(tables, ns, args[i]))
}

/// The outcome of translating the signature of a function.
pub open spec fn fn_decl_outcome(tables: &Tables, ns: Seq<char>, d: FnDecl) -> Outcome {
    let a = list_outcome(args_outcomes(tables, ns, d.inputs@));
    let o = ret_ty_outcome(tables, ns, d.output);
    Outcome {
        text: "(args "@ + a.text + ") return "@ + o.text,
        effect: a.effect.followed_by(o.effect),
    }
}

/// The outcome of translating a field of a struct.
pub open spec fn struct_field_outcome(tables: &Tables, ns: Seq<char>, f: StructField) -> Outcome {
    match f.ident {
        None => pure_outcome(Err(TransError::Unsupported(Construct::UnnamedField))),
        Some(name) => {
            let t = source_ty_outcome(tables, ns, f.ty);
            Outcome { text: name@ + " "@ + t.text, effect: t.effect }
        },
    }
}

/// The outcomes of translating each field of `fs`.
pub open spec fn struct_fields_outcomes(
    tables: &Tables,
    ns: Seq<char>,
    fs: Seq<StructField>,
) -> Seq<Outcome> {
    Seq::new(fs.len(), |i: int| struct_field_outcome(tables, ns, fs[i]))
}

/// The outcome of translating a variant of an enum.
pub open spec fn enum_variant_outcome(tables: &Tables, ns: Seq<char>, v: Variant) -> Outcome {
    let name = mangled_name(tables, ns, local_def(v.id));
    match v.kind {
        VariantKind::Tuple(args) => {
            let l = list_outcome(source_tys_outcomes(tables, ns, args@));
            Outcome { text: name->Ok_0 + " "@ + l.text, effect: Effect::guarded(name, l.effect) }
        },
        VariantKind::Struct => Outcome {
            text: Seq::empty(),
            effect: Effect::guarded(
                name,
                Effect::fail(TransError::Unsupported(Construct::VariantKind)),
            ),
        },
    }
}

/// The outcomes of translating each variant of `vs`.
pub open spec fn enum_variants_outcomes(tables: &Tables, ns: Seq<char>, vs: Seq<Variant>) -> Seq<
    Outcome,
> {
    Seq::new(vs.len(), |i: int| enum_variant_outcome(tables, ns, vs[i]))
}

/// The encoding of a destructor: the marker `0` where there is none, else
/// `1` and the mangled name of the implementation of the destructor.
pub open spec fn dtor_kind_text(tables: &Tables, ns: Seq<char>, k: DtorKind) -> Result<
    Seq<char>,
    TransError,
> {
    match k {
        DtorKind::NoDtor => Ok("0"@),
        DtorKind::TraitDtor(d) => match mangled_name(tables, ns, d) {
            Ok(name) => Ok("1 "@ + name),
            Err(e) => Err(e),
        },
    }
}

/// The destructor of the type `d`: the marker that it has none, or the
/// mangled name of the implementation of its destructor.
pub open spec fn dtor_text(tables: &Tables, ns: Seq<char>, d: DefId) -> Result<
    Seq<char>,
    TransError,
> {
    dtor_kind_text(tables, ns, tables.spec_ty_dtor(d))
}

/// The name of the trait that the reference `tr` resolves to.
pub open spec fn trait_name(tables: &Tables, ns: Seq<char>, tr: TraitRef) -> Result<
    Seq<char>,
    TransError,
> {
    if !tables.def_map@.contains_key(tr.ref_id) {
        Err(TransError::Missing(Table::Resolutions))
    } else {
        mangled_name(tables, ns, tables.def_map@[tr.ref_id].spec_def_id())
    }
}

/// The outcome of translating the clause that says which item `name` of
/// which trait a member of an implementation satisfies: the lifetime
/// arguments of the trait, then its type arguments with the self type
/// `self_ty` last.
#[verifier::opaque]
pub open spec fn impl_clause_outcome(
    tables: &Tables,
    ns: Seq<char>,
    tr: TraitRef,
    name: Seq<char>,
    self_ty: Seq<char>,
) -> Outcome {
    match tr.parameters {
        PathParameters::Parenthesized => pure_outcome(
            Err(TransError::Unsupported(Construct::ParenthesizedParams)),
        ),
        PathParameters::AngleBracketed(ls, ts) => {
            let lifes = as_result(list_outcome(lifetime_outcomes(tables, ls@)));
            let tys = source_tys_outcomes(tables, ns, ts@);
            let t = trait_name(tables, ns, tr);
            Outcome {
                text: t->Ok_0 + "_"@ + name + " "@ + lifes->Ok_0 + " "@ + counted(
                    texts_of(tys).push(self_ty),
                ),
                effect: Effect::guarded(lifes, effects_of(tys).followed_by(Effect::check(t))),
            }
        },
    }
}

/// The outcome of translating the receiver of a method as an ordinary
/// parameter: its name and its type, which is the self type for a
/// receiver by value and a reference to the self type for a receiver by
/// reference. Without a receiver the text is empty.
#[verifier::opaque]
pub open spec fn self_arg_outcome(
    tables: &Tables,
    ns: Seq<char>,
    es: ExplicitSelf,
    self_ty: SourceTy,
) -> Outcome {
    let t = source_ty_outcome(tables, ns, self_ty);
    match es {
        ExplicitSelf::Static => pure_outcome(Ok(Seq::empty())),
        ExplicitSelf::Value(name) => Outcome { text: name@ + " "@ + t.text, effect: t.effect },
        ExplicitSelf::Region(l, m, name) => {
            let r = match l {
                Some(l) => lifetime_text(tables, l),
                None => Ok("r_anon_0"@),
            };
            Outcome {
                text: name@ + " ["@ + ref_tag(m) + " "@ + r->Ok_0 + " "@ + t.text + "]"@,
                effect: Effect::guarded(r, t.effect),
            }
        },
        ExplicitSelf::Explicit(_, name) => Outcome { text: name@ + " "@ + t.text, effect: t.effect },
    }
}

/// The outcome of translating the clause of a method named `name` in the
/// implementation `imp`: the marker that there is none, or the clause.
#[verifier::opaque]
pub open spec fn method_clause_outcome(
    tables: &Tables,
    ns: Seq<char>,
    imp: Impl,
    name: Seq<char>,
) -> Outcome {
    match imp.trait_ref {
        None => pure_outcome(Ok("0"@)),
        Some(tr) => {
            let t = source_ty_outcome(tables, ns, imp.self_ty);
            let c = impl_clause_outcome(tables, ns, tr, name, t.text);
            Outcome { text: "1 "@ + c.text, effect: t.effect.followed_by(c.effect) }
        },
    }
}

/// The parameters that a method lists besides its receiver.
pub open spec fn other_inputs(es: ExplicitSelf, d: FnDecl) -> Result<Seq<Arg>, TransError> {
    if es is Static {
        Ok(d.inputs@)
    } else if d.inputs@.len() == 0 {
        Err(TransError::Unsupported(Construct::ReceiverWithoutParam))
    } else {
        Ok(d.inputs@.skip(1))
    }
}

/// The translated parameters of a method: the receiver, if there is one,
/// then the others.
pub open spec fn method_args(es: ExplicitSelf, receiver: Seq<char>, others: Seq<Seq<char>>) -> Seq<
    Seq<char>,
> {
    if es is Static {
        others
    } else {
        seq![receiver] + others
    }
}

/// The head of the text of a function: its name, generics, signature and
/// clause.
pub open spec fn fn_head(
    name: Seq<char>,
    generics: Seq<char>,
    decl: Seq<char>,
    clause: Seq<char>,
) -> Seq<char> {
    "fn "@ + name + " "@ + generics + " "@ + decl + " "@ + clause
}

/// The text of a function: its head, then its body behind the type that
/// the body returns.
pub open spec fn fn_form(
    name: Seq<char>,
    generics: Seq<char>,
    decl: Seq<char>,
    clause: Seq<char>,
    ret: Seq<char>,
    body: Seq<char>,
) -> Seq<char> {
    fn_head(name, generics, decl, clause) + " body "@ + ret + " "@ + body + "\n"@
}

/// The text of a function that is declared without its body: its head.
pub open spec fn fn_decl_form(
    name: Seq<char>,
    generics: Seq<char>,
    decl: Seq<char>,
    clause: Seq<char>,
) -> Seq<char> {
    fn_head(name, generics, decl, clause) + "\n\n"@
}

/// The outcome of translating the method `m` of the implementation `imp`.
#[verifier::opaque]
pub open spec fn method_outcome(tables: &Tables, ns: Seq<char>, imp: Impl, m: Method) -> Outcome {
    let name = mangled_name(tables, ns, local_def(m.id));
    match m.kind {
        MethodKind::Mac => Outcome {
            text: Seq::empty(),
            effect: Effect::guarded(
                name,
                Effect::fail(TransError::Unsupported(Construct::MacroMethod)),
            ),
        },
        MethodKind::Decl(mname, generics, es, style, decl, body) => {
            let sa = self_arg_outcome(tables, ns, es, imp.self_ty);
            let ic = method_clause_outcome(tables, ns, imp, mname@);
            let inputs = other_inputs(es, decl);
            let args = args_outcomes(tables, ns, inputs->Ok_0);
            let out = ret_ty_outcome(tables, ns, decl.output);
            let b = body_outcome(tables, ns, body, rules_text(style), "_method"@);
            Outcome {
                text: fn_form(
                    name->Ok_0,
                    counted(combined_lifetimes(imp.generics, generics)) + " "@ + counted(
                        combined_params(imp.generics, generics),
                    ),
                    "(args "@ + counted(method_args(es, sa.text, texts_of(args))) + ") return "@
                        + out.text,
                    ic.text,
                    out.text,
                    b.text,
                ),
                effect: Effect::guarded(
                    name,
                    sa.effect.followed_by(ic.effect).followed_by(
                        Effect::guarded(
                            inputs,
                            effects_of(args).followed_by(out.effect).followed_by(
                                out.effect,
                            ).followed_by(b.effect),
                        ),
                    ),
                ),
            }
        },
    }
}

/// The outcome of translating the associated type `ident`, which stands
/// for `typ`, of the implementation `imp`.
#[verifier::opaque]
pub open spec fn assoc_type_outcome(
    tables: &Tables,
    ns: Seq<char>,
    imp: Impl,
    ident: Seq<char>,
    typ: SourceTy,
) -> Outcome {
    let st = source_ty_outcome(tables, ns, imp.self_ty);
    let tt = source_ty_outcome(tables, ns, typ);
    let c = match imp.trait_ref {
        None => pure_outcome(Err(TransError::Unsupported(Construct::AssocTypeWithoutTrait))),
        Some(tr) => impl_clause_outcome(tables, ns, tr, ident, st.text),
    };
    Outcome {
        text: "associated_type "@ + generics_text(imp.generics, ParamSpace::Type) + " "@ + c.text
            + " "@ + tt.text,
        effect: st.effect.followed_by(tt.effect).followed_by(c.effect),
    }
}

/// The line that stands for a definition whose translation failed.
pub open spec fn error_line(name: Seq<char>, e: TransError) -> Seq<char> {
    "# error with "@ + name + ": "@ + error_text(e)
}

/// The outcome `o` of translating the definition `name`, with a failure
/// that concerns this definition alone turned into its error line. What
/// was observed before the failure stays observed.
pub open spec fn isolated(o: Outcome, name: Seq<char>) -> Outcome {
    match o.effect.failure {
        Some(e) => if e.spec_is_fatal() {
            o
        } else {
            Outcome {
                text: error_line(name, e),
                effect: Effect { failure: None, fns: o.effect.fns, types: o.effect.types },
            }
        },
        None => o,
    }
}

/// The outcome of translating a member of an implementation under its
/// own name, as one line of the implementation's text.
pub open spec fn member_outcome(name: Result<Seq<char>, TransError>, inner: Outcome) -> Outcome {
    let o = isolated(inner, name->Ok_0);
    Outcome { text: o.text + "\n"@, effect: Effect::guarded(name, o.effect) }
}

/// The outcome of translating a member of the implementation `imp`.
pub open spec fn impl_item_outcome(tables: &Tables, ns: Seq<char>, imp: Impl, it: ImplItem) -> Outcome {
    match it {
        ImplItem::Method(m) => member_outcome(
            mangled_name(tables, ns, local_def(m.id)),
            method_outcome(tables, ns, imp, m),
        ),
        ImplItem::Type(id, ident, typ) => member_outcome(
            mangled_name(tables, ns, local_def(id)),
            assoc_type_outcome(tables, ns, imp, ident@, typ),
        ),
    }
}

/// The outcomes of translating each member of the implementation `imp`.
pub open spec fn impl_items_outcomes(tables: &Tables, ns: Seq<char>, imp: Impl) -> Seq<Outcome> {
    Seq::new(imp.items@.len(), |i: int| impl_item_outcome(tables, ns, imp, imp.items@[i]))
}

/// The outcome of translating an item of a foreign block with the calling
/// convention `abi`.
pub open spec fn foreign_item_outcome(
    tables: &Tables,
    ns: Seq<char>,
    abi: Seq<char>,
    it: ForeignItem,
) -> Outcome {
    match it {
        ForeignItem::Fn(id, decl, generics) => {
            let name = mangled_name(tables, ns, local_def(id));
            let d = fn_decl_outcome(tables, ns, decl);
            member_outcome(
                name,
                Outcome {
                    text: "extern_fn "@ + abi + " "@ + name->Ok_0 + " "@ + generics_text(
                        generics,
                        ParamSpace::Function,
                    ) + " "@ + d.text,
                    effect: d.effect,
                },
            )
        },
        ForeignItem::Static(id) => member_outcome(
            mangled_name(tables, ns, local_def(id)),
            pure_outcome(Err(TransError::Unsupported(Construct::ForeignStatic))),
        ),
    }
}

/// The outcomes of translating each item of a foreign block.
pub open spec fn foreign_items_outcomes(
    tables: &Tables,
    ns: Seq<char>,
    abi: Seq<char>,
    items: Seq<ForeignItem>,
) -> Seq<Outcome> {
    Seq::new(items.len(), |i: int| foreign_item_outcome(tables, ns, abi, items[i]))
}

/// All of `texts`, one after the other.
pub open spec fn concat(texts: Seq<Seq<char>>) -> Seq<char>
    decreases texts.len(),
{
    if texts.len() == 0 {
        Seq::empty()
    } else {
        concat(texts.drop_last()) + texts.last()
    }
}

/// The outcome of translating parts whose texts follow each other
/// directly.
pub open spec fn lines_outcome(parts: Seq<Outcome>) -> Outcome {
    Outcome { text: concat(texts_of(parts)), effect: effects_of(parts) }
}

/// Whether the suppression list `filter` holds `name`.
pub open spec fn suppressed(filter: Seq<String>, name: Seq<char>) -> bool {
    exists|i: int| 0 <= i < filter.len() && (#[trigger] filter[i])@ == name
}

/// The outcome of translating a struct or an enum under the word `tag`:
/// its name, generics, members and destructor.
pub open spec fn adt_outcome(
    tables: &Tables,
    ns: Seq<char>,
    tag: Seq<char>,
    id: NodeId,
    generics: Generics,
    members: Outcome,
) -> Outcome {
    let name = mangled_name(tables, ns, local_def(id));
    let d = dtor_text(tables, ns, local_def(id));
    Outcome {
        text: tag + " "@ + name->Ok_0 + " "@ + generics_text(generics, ParamSpace::Type) + " "@
            + members.text + " "@ + d->Ok_0 + ";"@,
        effect: Effect::guarded(name, members.effect.followed_by(Effect::check(d))),
    }
}

/// The outcome of translating a top-level item. A function whose mangled
/// name is in the suppression list `filter` is declared by its head: its
/// body is not translated and not emitted.
#[verifier::opaque]
pub open spec fn item_outcome(
    tables: &Tables,
    ns: Seq<char>,
    filter: Seq<String>,
    item: Item,
) -> Outcome {
    let name = mangled_name(tables, ns, local_def(item.id));
    match item.kind {
        ItemKind::Struct(fields, g) => adt_outcome(
            tables,
            ns,
            "struct"@,
            item.id,
            g,
            list_outcome(struct_fields_outcomes(tables, ns, fields@)),
        ),
        ItemKind::Enum(variants, g) => adt_outcome(
            tables,
            ns,
            "enum"@,
            item.id,
            g,
            list_outcome(enum_variants_outcomes(tables, ns, variants@)),
        ),
        ItemKind::Fn(decl, style, g, body) => {
            let d = fn_decl_outcome(tables, ns, decl);
            if name is Ok && suppressed(filter, name->Ok_0) {
                Outcome {
                    text: fn_decl_form(
                        name->Ok_0,
                        generics_text(g, ParamSpace::Function),
                        d.text,
                        "0"@,
                    ),
                    effect: d.effect,
                }
            } else {
                let o = ret_ty_outcome(tables, ns, decl.output);
                let b = body_outcome(tables, ns, body, rules_text(style), "_ItemFn"@);
                Outcome {
                    text: fn_form(
                        name->Ok_0,
                        generics_text(g, ParamSpace::Function),
                        d.text,
                        "0"@,
                        o.text,
                        b.text,
                    ),
                    effect: Effect::guarded(
                        name,
                        d.effect.followed_by(o.effect).followed_by(b.effect),
                    ),
                }
            }
        },
        ItemKind::Impl(imp) => lines_outcome(impl_items_outcomes(tables, ns, imp)),
        ItemKind::Const(ty, x) => {
            let t = source_ty_outcome(tables, ns, ty);
            let v = expr_outcome(tables, ns, x);
            Outcome {
                text: "const "@ + name->Ok_0 + " "@ + t.text + " "@ + v.text,
                effect: Effect::guarded(name, t.effect.followed_by(v.effect)),
            }
        },
        ItemKind::ForeignMod(abi, items) => lines_outcome(
            foreign_items_outcomes(tables, ns, abi@, items@),
        ),
        ItemKind::Other => pure_outcome(Ok(Seq::empty())),
    }
}

/// The outcome of visiting a top-level item: its translation, or its
/// error line, as one line of the output.
pub open spec fn visit_outcome(
    tables: &Tables,
    ns: Seq<char>,
    filter: Seq<String>,
    item: Item,
) -> Outcome {
    member_outcome(
        mangled_name(tables, ns, local_def(item.id)),
        item_outcome(tables, ns, filter, item),
    )
}

/// The outcomes of visiting each item of `items`.
pub open spec fn items_outcomes(
    tables: &Tables,
    ns: Seq<char>,
    filter: Seq<String>,
    items: Seq<Item>,
) -> Seq<Outcome> {
    Seq::new(items.len(), |i: int| visit_outcome(tables, ns, filter, items[i]))
}

} // verus!
