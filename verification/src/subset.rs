//! Constructs outside the translated subset: where one stands at any depth
//! of an expression, a pattern, a statement or a block, the translation of
//! the whole fails, so that no partial text can reach the output.

use vstd::prelude::*;
use crate::ast::{Arm, Block, Decl, Expr, ExprKind, Field, Item, Local, Pat, PatKind, Stmt};
use crate::expr_spec::{
    arm_outcome, arms_outcomes, binding_name, block_outcome, body_outcome, decl_outcome,
    expr_outcome, exprs_outcomes, field_outcome, fields_outcomes, local_outcome, pat_outcome,
    pat_variant_outcome, pats_outcomes, stmt_outcome, stmts_outcomes, variant_outcome,
};
use crate::expr_spec::rules_text;
use crate::item_spec::{item_outcome, local_def, suppressed};
use crate::mangle::mangled_name;
use crate::outcome::{effects_of, Outcome};
use crate::tables::Tables;

verus! {

/// Some expression of `es` holds a construct outside the subset.
pub open spec fn exprs_outside(es: Seq<Expr>) -> bool
    decreases es, 0nat,
{
    exists|i: int| 0 <= i < es.len() && expr_outside(#[trigger] es[i])
}

/// Some pattern of `ps` holds a construct outside the subset.
pub open spec fn pats_outside(ps: Seq<Pat>) -> bool
    decreases ps, 0nat,
{
    exists|i: int| 0 <= i < ps.len() && pat_outside(#[trigger] ps[i])
}

/// Some statement of `ss` holds a construct outside the subset.
pub open spec fn stmts_outside(ss: Seq<Stmt>) -> bool
    decreases ss, 0nat,
{
    exists|i: int| 0 <= i < ss.len() && stmt_outside(#[trigger] ss[i])
}

/// Some arm of `arms` holds a construct outside the subset.
pub open spec fn arms_outside(arms: Seq<Arm>) -> bool
    decreases arms, 0nat,
{
    exists|i: int| 0 <= i < arms.len() && arm_outside(#[trigger] arms[i])
}

/// Some field of `fs` holds a construct outside the subset.
pub open spec fn fields_outside(fs: Seq<Field>) -> bool
    decreases fs, 0nat,
{
    exists|i: int| 0 <= i < fs.len() && field_outside(#[trigger] fs[i])
}

/// The field holds a construct outside the subset.
pub open spec fn field_outside(f: Field) -> bool
    decreases f, 0nat,
{
    expr_outside(f.expr)
}

/// The arm is outside the subset, or holds a construct that is: it has
/// more or fewer than one pattern, or a guard.
pub open spec fn arm_outside(a: Arm) -> bool
    decreases a, 0nat,
{
    a.pats@.len() != 1 || a.guard is Some || pat_outside(a.pats@[0]) || expr_outside(a.body)
}

/// The pattern is outside the subset, or holds a construct that is.
pub open spec fn pat_outside(p: Pat) -> bool
    decreases p, 0nat,
{
    match p.kind {
        PatKind::Wild => false,
        PatKind::Ident(_, sub) => sub is Some,
        PatKind::Enum(Some(args)) => pats_outside(args@),
        PatKind::Enum(None) => true,
        PatKind::Tup(args) => pats_outside(args@),
        PatKind::Lit(x) => expr_outside(*x),
        PatKind::Other => true,
    }
}

/// The local is outside the subset, or holds a construct that is: it is
/// not bound by a plain identifier, or has no initializer.
pub open spec fn local_outside(l: Local) -> bool
    decreases l, 0nat,
{
    binding_name(l.pat) is None || l.init is None || expr_outside(l.init->Some_0)
}

/// The statement is outside the subset, or holds a construct that is.
pub open spec fn stmt_outside(s: Stmt) -> bool
    decreases s, 0nat,
{
    match s {
        Stmt::Decl(Decl::Local(l)) => local_outside(l),
        Stmt::Decl(Decl::Item) => false,
        Stmt::Expr(x) => expr_outside(x),
        Stmt::Semi(x) => expr_outside(x),
        Stmt::Mac => true,
    }
}

/// The block holds a construct outside the subset.
pub open spec fn block_outside(b: Block) -> bool
    decreases b, 0nat,
{
    stmts_outside(b.stmts@) || (b.expr is Some && expr_outside(*b.expr->Some_0))
}

/// The expression is outside the subset, or holds a construct that is, at
/// any depth, in a place that is translated. The callee of a call is not
/// such a place: only what the callee resolves to enters the text of a call.
pub open spec fn expr_outside(e: Expr) -> bool
    decreases e, 0nat,
{
    match e.kind {
        ExprKind::Call(_, args) => exprs_outside(args@),
        ExprKind::MethodCall(_, args) => exprs_outside(args@),
        ExprKind::Tup(xs) => exprs_outside(xs@),
        ExprKind::Binary(_, a, b) => expr_outside(*a) || expr_outside(*b),
        ExprKind::Unary(_, a) => expr_outside(*a),
        ExprKind::Lit(l) => l is Other,
        ExprKind::Cast(x, _) => expr_outside(*x),
        ExprKind::If(c, then, els) => expr_outside(*c) || block_outside(*then) || (els is Some
            && expr_outside(*els->Some_0)),
        ExprKind::Match(x, arms) => expr_outside(*x) || arms_outside(arms@),
        ExprKind::Block(b) => block_outside(*b),
        ExprKind::Assign(l, r) => expr_outside(*l) || expr_outside(*r),
        ExprKind::Field(x, _) => expr_outside(*x),
        ExprKind::Index(_, _) => true,
        ExprKind::Range => true,
        ExprKind::Path(_) => false,
        ExprKind::AddrOf(_, x) => expr_outside(*x),
        ExprKind::Ret(x) => x is Some && expr_outside(*x->Some_0),
        ExprKind::Struct(fields, base) => base is Some || fields_outside(fields@),
        ExprKind::Paren(x) => expr_outside(*x),
        ExprKind::Other => true,
    }
}

/// A sequence fails where one of its items fails.
pub proof fn effects_fail(parts: Seq<Outcome>, i: int)
    requires
        0 <= i < parts.len(),
        parts[i].effect.failure is Some,
    ensures
        effects_of(parts).failure is Some,
    decreases parts.len(),
{
    if i < parts.len() - 1 {
        effects_fail(parts.drop_last(), i);
    }
}

/// A sequence of expressions fails where one of them holds a construct
/// outside the subset.
pub proof fn exprs_outside_fail(tables: &Tables, ns: Seq<char>, es: Seq<Expr>)
    requires
        exprs_outside(es),
    ensures
        effects_of(exprs_outcomes(tables, ns, es)).failure is Some,
    decreases es, 1nat,
{
    reveal_with_fuel(expr_outcome, 1);
    let i = choose|i: int| 0 <= i < es.len() && expr_outside(#[trigger] es[i]);
    expr_outside_fails(tables, ns, es[i]);
    effects_fail(exprs_outcomes(tables, ns, es), i);
}

/// A sequence of patterns fails where one of them holds a construct
/// outside the subset.
pub proof fn pats_outside_fail(tables: &Tables, ns: Seq<char>, ps: Seq<Pat>)
    requires
        pats_outside(ps),
    ensures
        effects_of(pats_outcomes(tables, ns, ps)).failure is Some,
    decreases ps, 1nat,
{
    reveal_with_fuel(pat_outcome, 1);
    let i = choose|i: int| 0 <= i < ps.len() && pat_outside(#[trigger] ps[i]);
    pat_outside_fails(tables, ns, ps[i]);
    effects_fail(pats_outcomes(tables, ns, ps), i);
}

/// A sequence of statements fails where one of them holds a construct
/// outside the subset.
pub proof fn stmts_outside_fail(tables: &Tables, ns: Seq<char>, ss: Seq<Stmt>)
    requires
        stmts_outside(ss),
    ensures
        effects_of(stmts_outcomes(tables, ns, ss)).failure is Some,
    decreases ss, 1nat,
{
    reveal_with_fuel(stmt_outcome, 1);
    let i = choose|i: int| 0 <= i < ss.len() && stmt_outside(#[trigger] ss[i]);
    stmt_outside_fails(tables, ns, ss[i]);
    effects_fail(stmts_outcomes(tables, ns, ss), i);
}

/// A sequence of arms fails where one of them holds a construct outside
/// the subset.
pub proof fn arms_outside_fail(tables: &Tables, ns: Seq<char>, arms: Seq<Arm>)
    requires
        arms_outside(arms),
    ensures
        effects_of(arms_outcomes(tables, ns, arms)).failure is Some,
    decreases arms, 1nat,
{
    reveal_with_fuel(arm_outcome, 1);
    let i = choose|i: int| 0 <= i < arms.len() && arm_outside(#[trigger] arms[i]);
    arm_outside_fails(tables, ns, arms[i]);
    effects_fail(arms_outcomes(tables, ns, arms), i);
}

/// A sequence of fields fails where one of them holds a construct outside
/// the subset.
pub proof fn fields_outside_fail(tables: &Tables, ns: Seq<char>, fs: Seq<Field>)
    requires
        fields_outside(fs),
    ensures
        effects_of(fields_outcomes(tables, ns, fs)).failure is Some,
    decreases fs, 1nat,
{
    reveal_with_fuel(field_outcome, 1);
    let i = choose|i: int| 0 <= i < fs.len() && field_outside(#[trigger] fs[i]);
    expr_outside_fails(tables, ns, fs[i].expr);
    reveal_with_fuel(expr_outcome, 1);
    effects_fail(fields_outcomes(tables, ns, fs), i);
}

/// An arm that holds a construct outside the subset fails.
pub proof fn arm_outside_fails(tables: &Tables, ns: Seq<char>, a: Arm)
    requires
        arm_outside(a),
    ensures
        arm_outcome(tables, ns, a).effect.failure is Some,
    decreases a, 1nat,
{
    reveal_with_fuel(arm_outcome, 1);
    reveal_with_fuel(pat_outcome, 1);
    reveal_with_fuel(expr_outcome, 1);
    if a.pats@.len() == 1 && a.guard is None {
        if pat_outside(a.pats@[0]) {
            pat_outside_fails(tables, ns, a.pats@[0]);
        } else {
            expr_outside_fails(tables, ns, a.body);
        }
    }
}

/// A pattern that holds a construct outside the subset fails.
pub proof fn pat_outside_fails(tables: &Tables, ns: Seq<char>, p: Pat)
    requires
        pat_outside(p),
    ensures
        pat_outcome(tables, ns, p).effect.failure is Some,
    decreases p, 1nat,
{
    reveal_with_fuel(pat_outcome, 1);
    reveal_with_fuel(pat_variant_outcome, 1);
    reveal_with_fuel(expr_outcome, 1);
    match p.kind {
        PatKind::Enum(Some(args)) => {
            pats_outside_fail(tables, ns, args@);
        },
        PatKind::Tup(args) => {
            pats_outside_fail(tables, ns, args@);
        },
        PatKind::Lit(x) => {
            expr_outside_fails(tables, ns, *x);
        },
        _ => {},
    }
}

/// A local that holds a construct outside the subset fails.
pub proof fn local_outside_fails(tables: &Tables, ns: Seq<char>, l: Local)
    requires
        local_outside(l),
    ensures
        local_outcome(tables, ns, l).effect.failure is Some,
    decreases l, 1nat,
{
    reveal_with_fuel(local_outcome, 1);
    reveal_with_fuel(expr_outcome, 1);
    if binding_name(l.pat) is Some && l.init is Some {
        expr_outside_fails(tables, ns, l.init->Some_0);
    }
}

/// A statement that holds a construct outside the subset fails.
pub proof fn stmt_outside_fails(tables: &Tables, ns: Seq<char>, s: Stmt)
    requires
        stmt_outside(s),
    ensures
        stmt_outcome(tables, ns, s).effect.failure is Some,
    decreases s, 1nat,
{
    reveal_with_fuel(stmt_outcome, 1);
    reveal_with_fuel(decl_outcome, 1);
    reveal_with_fuel(local_outcome, 1);
    reveal_with_fuel(expr_outcome, 1);
    match s {
        Stmt::Decl(Decl::Local(l)) => {
            local_outside_fails(tables, ns, l);
        },
        Stmt::Expr(x) => {
            expr_outside_fails(tables, ns, x);
        },
        Stmt::Semi(x) => {
            expr_outside_fails(tables, ns, x);
        },
        _ => {},
    }
}

/// The body of a block that holds a construct outside the subset fails,
/// under any opening word.
pub proof fn body_outside_fails(
    tables: &Tables,
    ns: Seq<char>,
    b: Block,
    tag: Seq<char>,
    unit: Seq<char>,
)
    requires
        block_outside(b),
    ensures
        body_outcome(tables, ns, b, tag, unit).effect.failure is Some,
        block_outcome(tables, ns, b).effect.failure is Some,
    decreases b, 1nat,
{
    reveal_with_fuel(block_outcome, 1);
    reveal_with_fuel(body_outcome, 1);
    reveal_with_fuel(stmt_outcome, 1);
    reveal_with_fuel(expr_outcome, 1);
    if stmts_outside(b.stmts@) {
        stmts_outside_fail(tables, ns, b.stmts@);
    } else {
        expr_outside_fails(tables, ns, *b.expr->Some_0);
    }
}

/// An expression that holds a construct outside the subset at any depth
/// fails: its translation returns no text.
pub proof fn expr_outside_fails(tables: &Tables, ns: Seq<char>, e: Expr)
    requires
        expr_outside(e),
    ensures
        variant_outcome(tables, ns, e).effect.failure is Some,
        expr_outcome(tables, ns, e).effect.failure is Some,
    decreases e, 1nat,
{
    reveal_with_fuel(expr_outcome, 1);
    reveal_with_fuel(variant_outcome, 1);
    reveal_with_fuel(block_outcome, 1);
    reveal_with_fuel(arm_outcome, 1);
    reveal_with_fuel(field_outcome, 1);
    match e.kind {
        ExprKind::Call(_, args) => {
            exprs_outside_fail(tables, ns, args@);
        },
        ExprKind::MethodCall(_, args) => {
            exprs_outside_fail(tables, ns, args@);
        },
        ExprKind::Tup(xs) => {
            exprs_outside_fail(tables, ns, xs@);
        },
        ExprKind::Binary(_, a, b) => {
            if expr_outside(*a) {
                expr_outside_fails(tables, ns, *a);
            } else {
                expr_outside_fails(tables, ns, *b);
            }
        },
        ExprKind::Unary(_, a) => {
            expr_outside_fails(tables, ns, *a);
        },
        ExprKind::Cast(x, _) => {
            expr_outside_fails(tables, ns, *x);
        },
        ExprKind::If(c, then, els) => {
            if expr_outside(*c) {
                expr_outside_fails(tables, ns, *c);
            } else if block_outside(*then) {
                body_outside_fails(tables, ns, *then, Seq::empty(), Seq::empty());
            } else {
                expr_outside_fails(tables, ns, *els->Some_0);
            }
        },
        ExprKind::Match(x, arms) => {
            if expr_outside(*x) {
                expr_outside_fails(tables, ns, *x);
            } else {
                arms_outside_fail(tables, ns, arms@);
            }
        },
        ExprKind::Block(b) => {
            body_outside_fails(tables, ns, *b, Seq::empty(), Seq::empty());
        },
        ExprKind::Assign(l, r) => {
            if expr_outside(*l) {
                expr_outside_fails(tables, ns, *l);
            } else {
                expr_outside_fails(tables, ns, *r);
            }
        },
        ExprKind::Field(x, _) => {
            expr_outside_fails(tables, ns, *x);
        },
        ExprKind::AddrOf(_, x) => {
            expr_outside_fails(tables, ns, *x);
        },
        ExprKind::Ret(x) => {
            expr_outside_fails(tables, ns, *x->Some_0);
        },
        ExprKind::Struct(fields, base) => {
            if base is None {
                fields_outside_fail(tables, ns, fields@);
            }
        },
        ExprKind::Paren(x) => {
            expr_outside_fails(tables, ns, *x);
        },
        _ => {},
    }
}

/// A function whose body holds a construct outside the subset at any
/// depth fails as a whole, unless only its head is asked for: no part of
/// its text can reach the output.
pub proof fn fn_outside_fails(tables: &Tables, ns: Seq<char>, filter: Seq<String>, item: Item)
    requires
        item.kind is Fn,
        block_outside(item.kind->Fn_3),
        mangled_name(tables, ns, local_def(item.id)) matches Ok(name) ==> !suppressed(filter, name),
    ensures
        item_outcome(tables, ns, filter, item).effect.failure is Some,
{
    reveal(item_outcome);
    body_outside_fails(
        tables,
        ns,
        item.kind->Fn_3,
        rules_text(item.kind->Fn_1),
        "_ItemFn"@,
    );
}

} // verus!
