//! Implicit coercions made explicit: dereferences and re-borrows that the
//! type checker attached to an expression.

use vstd::prelude::*;
use vstd::string::*;
use crate::context::{advanced, delivers, TransCtxt};
use crate::errors::{Construct, TransError};
use crate::outcome::{pure_outcome, Outcome};
use crate::tables::{Adjustment, AutoRef, Tables};
use crate::ty_enc::{trans_ptr_to, trans_ref_to, ty_outcome};
use crate::types::Ty;

verus! {

/// The type of what a pointer of type `t` points to.
pub open spec fn pointee(t: Ty) -> Option<Ty> {
    match t {
        Ty::RawPtr(_, to) => Some(*to),
        Ty::Ref(_, _, to) => Some(*to),
        _ => None,
    }
}

/// The type of a re-borrow of a value of type `t`.
pub open spec fn reborrow_ty(a: AutoRef, t: Ty) -> Ty {
    match a {
        AutoRef::Ptr(region, m, _) => Ty::Ref(region, m, Box::new(t)),
        AutoRef::Unsafe(m, _) => Ty::RawPtr(m, Box::new(t)),
        AutoRef::Other => t,
    }
}

/// An operation `op` wrapped around the expression `inner`, with the type
/// of the result.
pub open spec fn wrapped(ty: Seq<char>, op: Seq<char>, inner: Seq<char>) -> Seq<char> {
    "("@ + ty + op + inner + ")"@
}

/// The outcome of one implicit dereference of the expression `text` of
/// type `t`, and the type of the result.
#[verifier::opaque]
pub open spec fn deref_outcome(tables: &Tables, ns: Seq<char>, t: Ty, text: Seq<char>) -> (
    Outcome,
    Ty,
) {
    match pointee(t) {
        Some(to) => {
            let o = ty_outcome(tables, ns, to);
            (Outcome { text: wrapped(o.text, " deref "@, text), effect: o.effect }, to)
        },
        None => (pure_outcome(Err(TransError::Unsupported(Construct::DerefNonPointer))), t),
    }
}

/// The outcome of `n` implicit dereferences of the expression `text` of
/// type `t`, the innermost first, and the type of the result.
#[verifier::opaque]
pub open spec fn derefs_outcome(
    tables: &Tables,
    ns: Seq<char>,
    t: Ty,
    text: Seq<char>,
    n: nat,
) -> (Outcome, Ty)
    decreases n,
{
    if n == 0 {
        (pure_outcome(Ok(text)), t)
    } else {
        let before = derefs_outcome(tables, ns, t, text, (n - 1) as nat);
        let last = deref_outcome(tables, ns, before.1, before.0.text);
        (
            Outcome { text: last.0.text, effect: before.0.effect.followed_by(last.0.effect) },
            last.1,
        )
    }
}

/// The outcome of the implicit re-borrow `a`, if there is one, of the
/// expression `text` of type `t`.
#[verifier::opaque]
pub open spec fn autoref_outcome(
    tables: &Tables,
    ns: Seq<char>,
    a: Option<AutoRef>,
    t: Ty,
    text: Seq<char>,
) -> Outcome {
    match a {
        None => pure_outcome(Ok(text)),
        Some(AutoRef::Ptr(_, _, true)) => pure_outcome(
            Err(TransError::Unsupported(Construct::NestedAutoRef)),
        ),
        Some(AutoRef::Unsafe(_, true)) => pure_outcome(
            Err(TransError::Unsupported(Construct::NestedAutoRef)),
        ),
        Some(AutoRef::Other) => pure_outcome(Err(TransError::Unsupported(Construct::AutoRefKind))),
        Some(r) => {
            let o = ty_outcome(tables, ns, reborrow_ty(r, t));
            Outcome { text: wrapped(o.text, " addr_of "@, text), effect: o.effect }
        },
    }
}

/// The outcome of applying the coercion `adj` to the expression `text` of
/// type `t`: the dereferences first, then the re-borrow.
#[verifier::opaque]
pub open spec fn adjust_outcome(
    tables: &Tables,
    ns: Seq<char>,
    adj: Adjustment,
    t: Ty,
    text: Seq<char>,
) -> Outcome {
    match adj {
        Adjustment::DerefRef(n, a) => {
            let d = derefs_outcome(tables, ns, t, text, n as nat);
            let r = autoref_outcome(tables, ns, a, d.1, d.0.text);
            Outcome { text: r.text, effect: d.0.effect.followed_by(r.effect) }
        },
        Adjustment::ReifyFnPointer => pure_outcome(
            Err(TransError::Unsupported(Construct::ReifyFnPointer)),
        ),
    }
}

/// Wraps the operation `op` with the type `ty` around `inner`.
pub fn wrap(ty: &String, op: &str, inner: &String) -> (r: String)
    ensures
        r@ == wrapped(ty@, op@, inner@),
{
    let mut out = String::from_str("(");
    out.append(ty.as_str());
    out.append(op);
    out.append(inner.as_str());
    out.append(")");
    out
}

/// Dereferences the expression `expr_str` of type `expr_ty` once.
pub fn deref_once<'a>(
    tables: &Tables,
    ctx: &mut TransCtxt,
    expr_str: String,
    expr_ty: &'a Ty,
) -> (r: Result<(String, &'a Ty), TransError>)
    ensures
        ({
            let o = deref_outcome(tables, old(ctx).ns(), *expr_ty, expr_str@);
            &&& advanced(*old(ctx), *final(ctx), o.0.effect)
            &&& match r {
                Ok(p) => o.0.effect.failure is None && p.0@ == o.0.text && *p.1 == o.1,
                Err(e) => o.0.effect.failure == Some(e),
            }
        }),
{
    reveal(deref_outcome);
    let to: &'a Ty = match expr_ty {
        Ty::RawPtr(_, to) => to,
        Ty::Ref(_, _, to) => to,
        _ => {
            return Err(TransError::Unsupported(Construct::DerefNonPointer));
        },
    };
    let ty = to.trans(tables, ctx)?;
    Ok((wrap(&ty, " deref ", &expr_str), to))
}

/// Once a dereference has failed, further dereferences change nothing.
pub proof fn derefs_stop(tables: &Tables, ns: Seq<char>, t: Ty, text: Seq<char>, k: nat, n: nat)
    requires
        k <= n,
        derefs_outcome(tables, ns, t, text, k).0.effect.failure is Some,
    ensures
        derefs_outcome(tables, ns, t, text, n).0.effect == derefs_outcome(
            tables,
            ns,
            t,
            text,
            k,
        ).0.effect,
    decreases n,
{
    reveal_with_fuel(derefs_outcome, 1);
    if n > k {
        derefs_stop(tables, ns, t, text, k, (n - 1) as nat);
    }
}

/// Dereferences the expression `expr_str` of type `expr_ty` `n` times.
pub fn deref_times<'a>(
    tables: &Tables,
    ctx: &mut TransCtxt,
    expr_str: String,
    expr_ty: &'a Ty,
    n: usize,
) -> (r: Result<(String, &'a Ty), TransError>)
    ensures
        ({
            let o = derefs_outcome(tables, old(ctx).ns(), *expr_ty, expr_str@, n as nat);
            &&& advanced(*old(ctx), *final(ctx), o.0.effect)
            &&& match r {
                Ok(p) => o.0.effect.failure is None && p.0@ == o.0.text && *p.1 == o.1,
                Err(e) => o.0.effect.failure == Some(e),
            }
        }),
{
    let ghost c0 = *ctx;
    let ghost start = expr_str@;
    let mut text = expr_str;
    let mut ty: &'a Ty = expr_ty;
    let mut k: usize = 0;
    proof {
        reveal_with_fuel(derefs_outcome, 1);
    }
    while k < n
        invariant
            k <= n,
            c0 == *old(ctx),
            start == expr_str@,
            advanced(
                c0,
                *ctx,
                derefs_outcome(tables, c0.ns(), *expr_ty, start, k as nat).0.effect,
            ),
            derefs_outcome(tables, c0.ns(), *expr_ty, start, k as nat).0.effect.failure is None,
            text@ == derefs_outcome(tables, c0.ns(), *expr_ty, start, k as nat).0.text,
            *ty == derefs_outcome(tables, c0.ns(), *expr_ty, start, k as nat).1,
        decreases n - k,
    {
        proof {
            reveal_with_fuel(derefs_outcome, 1);
        }
        match deref_once(tables, ctx, text, ty) {
            Ok(p) => {
                text = p.0;
                ty = p.1;
            },
            Err(e) => {
                proof {
                    derefs_stop(tables, c0.ns(), *expr_ty, start, (k + 1) as nat, n as nat);
                }
                return Err(e);
            },
        }
        k += 1;
    }
    Ok((text, ty))
}

/// Re-borrows the expression `expr_str` of type `expr_ty` as `a` says.
pub fn autoref(
    tables: &Tables,
    ctx: &mut TransCtxt,
    a: &Option<AutoRef>,
    expr_str: String,
    expr_ty: &Ty,
) -> (r: Result<String, TransError>)
    ensures
        delivers(
            *old(ctx),
            *final(ctx),
            r,
            autoref_outcome(tables, old(ctx).ns(), *a, *expr_ty, expr_str@),
        ),
{
    reveal(autoref_outcome);
    match a {
        None => Ok(expr_str),
        Some(AutoRef::Ptr(region, m, nested)) => {
            if *nested {
                return Err(TransError::Unsupported(Construct::NestedAutoRef));
            }
            let ty = trans_ref_to(tables, ctx, region, *m, expr_ty)?;
            Ok(wrap(&ty, " addr_of ", &expr_str))
        },
        Some(AutoRef::Unsafe(m, nested)) => {
            if *nested {
                return Err(TransError::Unsupported(Construct::NestedAutoRef));
            }
            let ty = trans_ptr_to(tables, ctx, *m, expr_ty)?;
            Ok(wrap(&ty, " addr_of ", &expr_str))
        },
        Some(AutoRef::Other) => Err(TransError::Unsupported(Construct::AutoRefKind)),
    }
}

/// Applies the coercion `adj` to the translated expression `unadjusted`
/// of type `expr_ty`.
pub fn adjust_expr(
    tables: &Tables,
    ctx: &mut TransCtxt,
    adj: &Adjustment,
    expr_ty: &Ty,
    unadjusted: String,
) -> (r: Result<String, TransError>)
    ensures
        delivers(
            *old(ctx),
            *final(ctx),
            r,
            adjust_outcome(tables, old(ctx).ns(), *adj, *expr_ty, unadjusted@),
        ),
{
    reveal(adjust_outcome);
    match adj {
        Adjustment::DerefRef(n, a) => {
            let d = deref_times(tables, ctx, unadjusted, expr_ty, *n)?;
            autoref(tables, ctx, a, d.0, d.1)
        },
        Adjustment::ReifyFnPointer => Err(TransError::Unsupported(Construct::ReifyFnPointer)),
    }
}

} // verus!
