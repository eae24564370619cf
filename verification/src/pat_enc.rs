//! The encoder of patterns.

use vstd::prelude::*;
use vstd::string::*;
use crate::ast::{Lit, Local, Pat, PatKind};
use crate::call::{find_variant, variant_head_string};
use crate::context::{advanced, delivers, delivers_each, list_step, TransCtxt};
use crate::defs::NodeId;
use crate::errors::{Construct, TransError};
use crate::expr_enc::{finish_list, tagged, typed};
use crate::expr_spec::{
    expr_outcome, ident_pat_text, pat_outcome, pat_variant_outcome, pats_outcomes,
};
use crate::mangle::mangled_def_name;
use crate::outcome::{effects_of, text_of, texts_of, views, Outcome};
use crate::tables::{lookup, Def, Tables};

verus! {

/// The variant text of an identifier pattern.
pub fn trans_ident_pat(tables: &Tables, ns: &str, id: NodeId, ident: &String) -> (r: Result<
    String,
    TransError,
>)
    ensures
        text_of(r) == ident_pat_text(tables, ns@, id, ident@),
{
    reveal(ident_pat_text);
    match find_variant(tables, ns, id)? {
        Some(v) => {
            let mut out = variant_head_string("enum", &v.0, v.1);
            out.append(" 0");
            Ok(out)
        },
        None => {
            match lookup(&tables.def_map, id) {
                None => {
                    let mut out = String::from_str("var ");
                    out.append(ident.as_str());
                    Ok(out)
                },
                Some(Def::Local(_)) => {
                    let mut out = String::from_str("var ");
                    out.append(ident.as_str());
                    Ok(out)
                },
                Some(d) => {
                    let name = mangled_def_name(tables, ns, d.def_id())?;
                    let mut out = String::from_str("const ");
                    out.append(name.as_str());
                    Ok(out)
                },
            }
        },
    }
}

/// Translates each pattern of `ps`, in order.
pub fn trans_pats(tables: &Tables, ctx: &mut TransCtxt, ps: &Vec<Pat>) -> (r: Result<
    Vec<String>,
    TransError,
>)
    ensures
        delivers_each(*old(ctx), *final(ctx), r, pats_outcomes(tables, old(ctx).ns(), ps@)),
    decreases ps, 0nat,
{
    let ghost c0 = *ctx;
    let ghost parts = pats_outcomes(tables, ctx.ns(), ps@);
    let mut strs: Vec<String> = Vec::new();
    let mut i: usize = 0;
    assert(parts.take(0) =~= Seq::<Outcome>::empty());
    assert(views(strs@) =~= texts_of(parts.take(0)));
    while i < ps.len()
        invariant
            i <= ps.len(),
            c0 == *old(ctx),
            parts == pats_outcomes(tables, c0.ns(), ps@),
            advanced(c0, *ctx, effects_of(parts.take(i as int))),
            effects_of(parts.take(i as int)).failure is None,
            views(strs@) == texts_of(parts.take(i as int)),
        decreases ps.len() - i,
    {
        let ghost ci = *ctx;
        let r = ps[i].trans(tables, ctx);
        proof {
            reveal_with_fuel(pat_outcome, 1);
            list_step(c0, ci, *ctx, parts, i as int, r);
        }
        match r {
            Ok(s) => {
                strs.push(s);
                assert(views(strs@) =~= texts_of(parts.take(i + 1)));
            },
            Err(e) => {
                return Err(e);
            },
        }
        i += 1;
    }
    assert(parts.take(i as int) =~= parts);
    Ok(strs)
}

impl Pat {
    /// Translates the variant of a pattern that is no literal.
    pub fn trans_variant(&self, tables: &Tables, ctx: &mut TransCtxt) -> (r: Result<
        String,
        TransError,
    >)
        ensures
            delivers(
                *old(ctx),
                *final(ctx),
                r,
                pat_variant_outcome(tables, old(ctx).ns(), *self),
            ),
        decreases self, 0nat,
    {
        reveal_with_fuel(pat_variant_outcome, 1);
        reveal_with_fuel(pat_outcome, 1);
        match &self.kind {
            PatKind::Wild => Ok(String::from_str("wild")),
            PatKind::Ident(name, None) => trans_ident_pat(
                tables,
                ctx.crate_name.as_str(),
                self.id,
                name,
            ),
            PatKind::Enum(Some(args)) => {
                match find_variant(tables, ctx.crate_name.as_str(), self.id)? {
                    None => Err(TransError::Unsupported(Construct::PatNotVariant)),
                    Some(v) => {
                        let l = finish_list(trans_pats(tables, ctx, args))?;
                        let head = variant_head_string("enum", &v.0, v.1);
                        Ok(tagged(head.as_str(), &l))
                    },
                }
            },
            PatKind::Tup(args) => {
                let l = finish_list(trans_pats(tables, ctx, args))?;
                Ok(tagged("tuple", &l))
            },
            _ => Err(TransError::Unsupported(Construct::PatKind)),
        }
    }

    /// Translates a pattern.
    pub fn trans(&self, tables: &Tables, ctx: &mut TransCtxt) -> (r: Result<String, TransError>)
        ensures
            delivers(*old(ctx), *final(ctx), r, pat_outcome(tables, old(ctx).ns(), *self)),
        decreases self, 1nat,
    {
        reveal_with_fuel(pat_outcome, 1);
        reveal_with_fuel(pat_variant_outcome, 1);
        reveal_with_fuel(expr_outcome, 1);
        match &self.kind {
            PatKind::Lit(x) => x.trans(tables, ctx),
            _ => {
                let v = self.trans_variant(tables, ctx)?;
                typed(tables, ctx, self.id, &v)
            },
        }
    }
}

} // verus!
