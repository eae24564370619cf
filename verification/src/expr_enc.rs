//! The encoder of expressions and the helpers that the encoders of
//! patterns, statements and blocks share with it.

use vstd::prelude::*;
use vstd::string::*;
use crate::adjust::adjust_expr;
use crate::ast::{Arm, BinOp, Expr, ExprKind, Field, Lit, Local, UnOp, Unsafety};
use crate::call::{find_variant, variant_head_string};
use crate::context::{advanced, delivers, delivers_each, list_step, TransCtxt};
use crate::defs::NodeId;
use crate::errors::{Construct, Table, TransError};
use crate::expr_spec::{
    arm_outcome, arms_outcomes, binop_text, expr_outcome, exprs_outcomes, field_outcome,
    fields_outcomes, finished_outcome, lit_text, pat_outcome, path_text, rules_text, typed_outcome,
    unit_text, unop_text, variant_outcome,
};
use crate::mangle::mangled_def_name;
use crate::registry::replay;
use crate::outcome::{counted, counted_list, effects_of, text_of, texts_of, views, Outcome};
use crate::tables::{lookup, Def, Tables};
use crate::text::{bool_str, decimal_string};

verus! {

impl BinOp {
    /// The token of this operator.
    pub fn token(self) -> (r: &'static str)
        ensures
            r@ == binop_text(self),
    {
        match self {
            BinOp::Add => "BiAdd",
            BinOp::Sub => "BiSub",
            BinOp::Mul => "BiMul",
            BinOp::Div => "BiDiv",
            BinOp::Rem => "BiRem",
            BinOp::And => "BiAnd",
            BinOp::Or => "BiOr",
            BinOp::BitXor => "BiBitXor",
            BinOp::BitAnd => "BiBitAnd",
            BinOp::BitOr => "BiBitOr",
            BinOp::Shl => "BiShl",
            BinOp::Shr => "BiShr",
            BinOp::Eq => "BiEq",
            BinOp::Lt => "BiLt",
            BinOp::Le => "BiLe",
            BinOp::Ne => "BiNe",
            BinOp::Ge => "BiGe",
            BinOp::Gt => "BiGt",
        }
    }
}

impl UnOp {
    /// The token of this operator.
    pub fn token(self) -> (r: &'static str)
        ensures
            r@ == unop_text(self),
    {
        match self {
            UnOp::Uniq => "UnUniq",
            UnOp::Deref => "UnDeref",
            UnOp::Not => "UnNot",
            UnOp::Neg => "UnNeg",
        }
    }
}

impl Unsafety {
    /// The word that opens a block of this kind.
    pub fn rules(self) -> (r: &'static str)
        ensures
            r@ == rules_text(self),
    {
        match self {
            Unsafety::Normal => "block",
            Unsafety::Unsafe => "unsafe",
        }
    }
}

impl Lit {
    /// Encodes a literal.
    pub fn trans(&self) -> (r: Result<String, TransError>)
        ensures
            text_of(r) == lit_text(*self),
    {
        match self {
            Lit::Byte(b) => Ok(decimal_string(*b as u64)),
            Lit::Int(i) => Ok(decimal_string(*i)),
            Lit::Bool(b) => Ok(String::from_str(bool_str(*b))),
            Lit::Other => Err(TransError::Unsupported(Construct::LitKind)),
        }
    }
}

/// The unit literal that stands where the construct `whence` has no
/// expression.
pub fn unit_literal(whence: &str) -> (r: String)
    ensures
        r@ == unit_text(whence@),
{
    let mut out = String::from_str("([unit] simple_literal ");
    out.append(whence);
    out.append(")");
    out
}

/// `tag`, a space, and `a`.
pub fn tagged(tag: &str, a: &String) -> (r: String)
    ensures
        r@ == tag@ + " "@ + a@,
{
    let mut out = String::from_str(tag);
    out.append(" ");
    out.append(a.as_str());
    out
}

/// `tag`, a space, `a`, a space, and `b`.
pub fn tagged2(tag: &str, a: &String, b: &str) -> (r: String)
    ensures
        r@ == tag@ + " "@ + a@ + " "@ + b@,
{
    let mut out = String::from_str(tag);
    out.append(" ");
    out.append(a.as_str());
    out.append(" ");
    out.append(b);
    out
}

/// The encoding of the sequence whose items were translated to `r`.
pub fn finish_list(r: Result<Vec<String>, TransError>) -> (out: Result<String, TransError>)
    ensures
        match r {
            Ok(v) => out matches Ok(s) && s@ == counted(views(v@)),
            Err(e) => out == Err::<String, _>(e),
        },
{
    match r {
        Ok(v) => Ok(counted_list(&v)),
        Err(e) => Err(e),
    }
}

/// Wraps the type of the node `id` around the variant text `v`.
pub fn typed(tables: &Tables, ctx: &mut TransCtxt, id: NodeId, v: &String) -> (r: Result<
    String,
    TransError,
>)
    ensures
        delivers(*old(ctx), *final(ctx), r, typed_outcome(tables, old(ctx).ns(), id, v@)),
{
    reveal(typed_outcome);
    let ty = match lookup(&tables.node_types, id) {
        Some(ty) => ty,
        None => {
            return Err(TransError::Missing(Table::NodeTypes));
        },
    };
    let t = ty.trans(tables, ctx)?;
    let mut out = String::from_str("(");
    out.append(t.as_str());
    out.append(" ");
    out.append(v.as_str());
    out.append(")");
    Ok(out)
}

/// Completes the expression node `id` whose variant text is `v`.
pub fn finish_expr(tables: &Tables, ctx: &mut TransCtxt, id: NodeId, add_ty: bool, v: String) -> (r:
    Result<String, TransError>)
    ensures
        delivers(
            *old(ctx),
            *final(ctx),
            r,
            finished_outcome(tables, old(ctx).ns(), id, add_ty, v@),
        ),
{
    reveal(finished_outcome);
    reveal_with_fuel(replay, 3);
    let ty = match lookup(&tables.node_types, id) {
        Some(ty) => ty,
        None => {
            return Err(TransError::Missing(Table::NodeTypes));
        },
    };
    let unadjusted = if add_ty {
        typed(tables, ctx, id, &v)?
    } else {
        v
    };
    match lookup(&tables.adjustments, id) {
        None => Ok(unadjusted),
        Some(adj) => adjust_expr(tables, ctx, adj, ty, unadjusted),
    }
}

/// The variant text of a path expression.
pub fn trans_path(tables: &Tables, ns: &str, id: NodeId, ident: &String) -> (r: Result<
    String,
    TransError,
>)
    ensures
        text_of(r) == path_text(tables, ns@, id, ident@),
{
    reveal(path_text);
    match find_variant(tables, ns, id)? {
        Some(v) => {
            let mut out = variant_head_string("enum_literal", &v.0, v.1);
            out.append(" 0");
            Ok(out)
        },
        None => {
            match lookup(&tables.def_map, id) {
                None => Err(TransError::Missing(Table::Resolutions)),
                Some(Def::Local(_)) => {
                    let mut out = String::from_str("var ");
                    out.append(ident.as_str());
                    Ok(out)
                },
                Some(Def::Struct(_)) => Ok(String::from_str("struct_literal 0")),
                Some(d) => {
                    let name = mangled_def_name(tables, ns, d.def_id())?;
                    let mut out = String::from_str("const ");
                    out.append(name.as_str());
                    Ok(out)
                },
            }
        },
    }
}

/// Translates each expression of `es`, in order.
pub fn trans_exprs(tables: &Tables, ctx: &mut TransCtxt, es: &Vec<Expr>) -> (r: Result<
    Vec<String>,
    TransError,
>)
    ensures
        delivers_each(*old(ctx), *final(ctx), r, exprs_outcomes(tables, old(ctx).ns(), es@)),
    decreases es, 0nat,
{
    let ghost c0 = *ctx;
    let ghost parts = exprs_outcomes(tables, ctx.ns(), es@);
    let mut strs: Vec<String> = Vec::new();
    let mut i: usize = 0;
    assert(parts.take(0) =~= Seq::<Outcome>::empty());
    assert(views(strs@) =~= texts_of(parts.take(0)));
    while i < es.len()
        invariant
            i <= es.len(),
            c0 == *old(ctx),
            parts == exprs_outcomes(tables, c0.ns(), es@),
            advanced(c0, *ctx, effects_of(parts.take(i as int))),
            effects_of(parts.take(i as int)).failure is None,
            views(strs@) == texts_of(parts.take(i as int)),
        decreases es.len() - i,
    {
        let ghost ci = *ctx;
        let r = es[i].trans(tables, ctx);
        proof {
            reveal_with_fuel(expr_outcome, 1);
            list_step(c0, ci, *ctx, parts, i as int, r);
        }
        match r {
            Ok(s) => {
                strs.push(s);
                assert(views(strs@) =~= texts_of(parts.take(i + 1)));
            },
            Err(e) => {
                return Err(e);
            },
        }
        i += 1;
    }
    assert(parts.take(i as int) =~= parts);
    Ok(strs)
}

/// Translates each arm of `arms`, in order.
pub fn trans_arms(tables: &Tables, ctx: &mut TransCtxt, arms: &Vec<Arm>) -> (r: Result<
    Vec<String>,
    TransError,
>)
    ensures
        delivers_each(*old(ctx), *final(ctx), r, arms_outcomes(tables, old(ctx).ns(), arms@)),
    decreases arms, 0nat,
{
    let ghost c0 = *ctx;
    let ghost parts = arms_outcomes(tables, ctx.ns(), arms@);
    let mut strs: Vec<String> = Vec::new();
    let mut i: usize = 0;
    assert(parts.take(0) =~= Seq::<Outcome>::empty());
    assert(views(strs@) =~= texts_of(parts.take(0)));
    while i < arms.len()
        invariant
            i <= arms.len(),
            c0 == *old(ctx),
            parts == arms_outcomes(tables, c0.ns(), arms@),
            advanced(c0, *ctx, effects_of(parts.take(i as int))),
            effects_of(parts.take(i as int)).failure is None,
            views(strs@) == texts_of(parts.take(i as int)),
        decreases arms.len() - i,
    {
        let ghost ci = *ctx;
        let r = arms[i].trans(tables, ctx);
        proof {
            reveal_with_fuel(arm_outcome, 1);
            list_step(c0, ci, *ctx, parts, i as int, r);
        }
        match r {
            Ok(s) => {
                strs.push(s);
                assert(views(strs@) =~= texts_of(parts.take(i + 1)));
            },
            Err(e) => {
                return Err(e);
            },
        }
        i += 1;
    }
    assert(parts.take(i as int) =~= parts);
    Ok(strs)
}

/// Translates each field of `fs`, in order.
pub fn trans_fields(tables: &Tables, ctx: &mut TransCtxt, fs: &Vec<Field>) -> (r: Result<
    Vec<String>,
    TransError,
>)
    ensures
        delivers_each(*old(ctx), *final(ctx), r, fields_outcomes(tables, old(ctx).ns(), fs@)),
    decreases fs, 0nat,
{
    let ghost c0 = *ctx;
    let ghost parts = fields_outcomes(tables, ctx.ns(), fs@);
    let mut strs: Vec<String> = Vec::new();
    let mut i: usize = 0;
    assert(parts.take(0) =~= Seq::<Outcome>::empty());
    assert(views(strs@) =~= texts_of(parts.take(0)));
    while i < fs.len()
        invariant
            i <= fs.len(),
            c0 == *old(ctx),
            parts == fields_outcomes(tables, c0.ns(), fs@),
            advanced(c0, *ctx, effects_of(parts.take(i as int))),
            effects_of(parts.take(i as int)).failure is None,
            views(strs@) == texts_of(parts.take(i as int)),
        decreases fs.len() - i,
    {
        let ghost ci = *ctx;
        let r = fs[i].trans(tables, ctx);
        proof {
            reveal_with_fuel(field_outcome, 1);
            list_step(c0, ci, *ctx, parts, i as int, r);
        }
        match r {
            Ok(s) => {
                strs.push(s);
                assert(views(strs@) =~= texts_of(parts.take(i + 1)));
            },
            Err(e) => {
                return Err(e);
            },
        }
        i += 1;
    }
    assert(parts.take(i as int) =~= parts);
    Ok(strs)
}

impl Field {
    /// Translates a field of a struct literal.
    pub fn trans(&self, tables: &Tables, ctx: &mut TransCtxt) -> (r: Result<String, TransError>)
        ensures
            delivers(*old(ctx), *final(ctx), r, field_outcome(tables, old(ctx).ns(), *self)),
        decreases self, 0nat,
    {
        reveal_with_fuel(field_outcome, 1);
        reveal_with_fuel(expr_outcome, 1);
        let x = self.expr.trans(tables, ctx)?;
        let mut out = self.ident.clone();
        out.append(" ");
        out.append(x.as_str());
        Ok(out)
    }
}

impl Arm {
    /// Translates a match arm.
    pub fn trans(&self, tables: &Tables, ctx: &mut TransCtxt) -> (r: Result<String, TransError>)
        ensures
            delivers(*old(ctx), *final(ctx), r, arm_outcome(tables, old(ctx).ns(), *self)),
        decreases self, 0nat,
    {
        reveal_with_fuel(arm_outcome, 1);
        reveal_with_fuel(pat_outcome, 1);
        reveal_with_fuel(expr_outcome, 1);
        if self.pats.len() != 1 {
            return Err(TransError::Unsupported(Construct::ArmPatterns));
        }
        if self.guard.is_some() {
            return Err(TransError::Unsupported(Construct::ArmGuard));
        }
        let p = self.pats[0].trans(tables, ctx)?;
        let b = self.body.trans(tables, ctx)?;
        let mut out = String::from_str("{ ");
        out.append(p.as_str());
        out.append(" >> ");
        out.append(b.as_str());
        out.append(" }");
        Ok(out)
    }
}

impl Expr {
    /// Translates an expression.
    pub fn trans(&self, tables: &Tables, ctx: &mut TransCtxt) -> (r: Result<String, TransError>)
        ensures
            delivers(*old(ctx), *final(ctx), r, expr_outcome(tables, old(ctx).ns(), *self)),
        decreases self, 2nat,
    {
        reveal_with_fuel(expr_outcome, 1);
        reveal_with_fuel(variant_outcome, 1);
        let v = self.trans_variant(tables, ctx)?;
        let add_ty = match &self.kind {
            ExprKind::Paren(_) => false,
            _ => true,
        };
        finish_expr(tables, ctx, self.id, add_ty, v)
    }
}

} // verus!
