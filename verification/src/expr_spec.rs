//! What the encoding of expressions, patterns, statements and blocks
//! amounts to.

use vstd::prelude::*;
use crate::adjust::adjust_outcome;
use crate::ast::{
    Arm, BinOp, Block, Decl, Expr, ExprKind, Field, Lit, Local, Pat, PatKind, Stmt, UnOp, Unsafety,
};
use crate::call::{call_head_outcome, method_call_outcome, variant_at, variant_head};
use crate::defs::NodeId;
use crate::errors::{Construct, Table, TransError};
use crate::mangle::mangled_name;
use crate::outcome::{effects_of, list_outcome, pure_outcome, texts_of, Effect, Outcome};
use crate::tables::{Def, Tables};
use crate::text::{bool_text, decimal};
use crate::ty_enc::{source_ty_outcome, ty_outcome};

verus! {

/// The token of a binary operator.
pub open spec fn binop_text(op: BinOp) -> Seq<char> {
    match op {
        BinOp::Add => "BiAdd"@,
        BinOp::Sub => "BiSub"@,
        BinOp::Mul => "BiMul"@,
        BinOp::Div => "BiDiv"@,
        BinOp::Rem => "BiRem"@,
        BinOp::And => "BiAnd"@,
        BinOp::Or => "BiOr"@,
        BinOp::BitXor => "BiBitXor"@,
        BinOp::BitAnd => "BiBitAnd"@,
        BinOp::BitOr => "BiBitOr"@,
        BinOp::Shl => "BiShl"@,
        BinOp::Shr => "BiShr"@,
        BinOp::Eq => "BiEq"@,
        BinOp::Lt => "BiLt"@,
        BinOp::Le => "BiLe"@,
        BinOp::Ne => "BiNe"@,
        BinOp::Ge => "BiGe"@,
        BinOp::Gt => "BiGt"@,
    }
}

/// The token of a unary operator.
pub open spec fn unop_text(op: UnOp) -> Seq<char> {
    match op {
        UnOp::Uniq => "UnUniq"@,
        UnOp::Deref => "UnDeref"@,
        UnOp::Not => "UnNot"@,
        UnOp::Neg => "UnNeg"@,
    }
}

/// The word that opens a block.
pub open spec fn rules_text(u: Unsafety) -> Seq<char> {
    match u {
        Unsafety::Normal => "block"@,
        Unsafety::Unsafe => "unsafe"@,
    }
}

/// The encoding of a literal.
pub open spec fn lit_text(l: Lit) -> Result<Seq<char>, TransError> {
    match l {
        Lit::Byte(b) => Ok(decimal(b as nat)),
        Lit::Int(i) => Ok(decimal(i as nat)),
        Lit::Bool(b) => Ok(bool_text(b)),
        Lit::Other => Err(TransError::Unsupported(Construct::LitKind)),
    }
}

/// The unit literal that stands where the construct `whence` has no
/// expression: a typed expression like any other.
pub open spec fn unit_text(whence: Seq<char>) -> Seq<char> {
    "([unit] simple_literal "@ + whence + ")"@
}

/// The text of a binary operation that is no method call.
pub open spec fn binop_form(op: BinOp, a: Seq<char>, b: Seq<char>) -> Seq<char> {
    "binop"@ + " "@ + binop_text(op) + " "@ + a + " "@ + b
}

/// The text of a unary operation that is no method call.
pub open spec fn unop_form(op: UnOp, a: Seq<char>) -> Seq<char> {
    if op is Deref {
        "deref"@ + " "@ + a
    } else {
        "unop"@ + " "@ + unop_text(op) + " "@ + a
    }
}

/// The text of a conditional, as a match on the two truth values.
pub open spec fn if_form(c: Seq<char>, ty: Seq<char>, then: Seq<char>, els: Seq<char>) -> Seq<
    char,
> {
    "match "@ + c + " 2 { ([bool] simple_literal true) >> ("@ + ty + " "@ + then
        + ") } { ([bool] simple_literal false) >> "@ + els + " }"@
}

/// The text of a block: the word that opens it, its statements as a
/// sequence, and its final expression.
pub open spec fn block_form(tag: Seq<char>, stmts: Seq<char>, expr: Seq<char>) -> Seq<char> {
    tag + " {\n"@ + stmts + "\t"@ + expr + "\n}\n"@
}

/// The name that a pattern binds, if the pattern is an identifier.
pub open spec fn binding_name(p: Pat) -> Option<Seq<char>> {
    match p.kind {
        PatKind::Ident(name, _) => Some(name@),
        _ => None,
    }
}

/// The outcome of wrapping the type of the node `id` around the variant
/// text `v`.
#[verifier::opaque]
pub open spec fn typed_outcome(tables: &Tables, ns: Seq<char>, id: NodeId, v: Seq<char>) -> Outcome {
    if !tables.node_types@.contains_key(id) {
        pure_outcome(Err(TransError::Missing(Table::NodeTypes)))
    } else {
        let t = ty_outcome(tables, ns, tables.node_types@[id]);
        Outcome { text: "("@ + t.text + " "@ + v + ")"@, effect: t.effect }
    }
}

/// The outcome of completing the expression node `id` whose variant text
/// is `v`: the text is wrapped in the node's type unless `add_ty` is off,
/// and the implicit coercion of the node, if one is recorded, is applied.
#[verifier::opaque]
pub open spec fn finished_outcome(
    tables: &Tables,
    ns: Seq<char>,
    id: NodeId,
    add_ty: bool,
    v: Seq<char>,
) -> Outcome {
    if !tables.node_types@.contains_key(id) {
        pure_outcome(Err(TransError::Missing(Table::NodeTypes)))
    } else {
        let u = if add_ty {
            typed_outcome(tables, ns, id, v)
        } else {
            pure_outcome(Ok(v))
        };
        if tables.adjustments@.contains_key(id) {
            let a = adjust_outcome(
                tables,
                ns,
                tables.adjustments@[id],
                tables.node_types@[id],
                u.text,
            );
            Outcome { text: a.text, effect: u.effect.followed_by(a.effect) }
        } else {
            u
        }
    }
}

/// The variant text of a path expression with the last identifier
/// `ident`: a variant without arguments, else a local variable, else a
/// struct without fields, else a constant.
#[verifier::opaque]
pub open spec fn path_text(tables: &Tables, ns: Seq<char>, id: NodeId, ident: Seq<char>) -> Result<
    Seq<char>,
    TransError,
> {
    match variant_at(tables, ns, id) {
        Err(e) => Err(e),
        Ok(Some(v)) => Ok(variant_head("enum_literal"@, v) + " 0"@),
        Ok(None) => {
            if !tables.def_map@.contains_key(id) {
                Err(TransError::Missing(Table::Resolutions))
            } else {
                match tables.def_map@[id] {
                    Def::Local(_) => Ok("var "@ + ident),
                    Def::Struct(_) => Ok("struct_literal 0"@),
                    d => match mangled_name(tables, ns, d.spec_def_id()) {
                        Ok(name) => Ok("const "@ + name),
                        Err(e) => Err(e),
                    },
                }
            }
        },
    }
}

/// The variant text of an identifier pattern: a variant without
/// arguments, else a binding, else a constant.
#[verifier::opaque]
pub open spec fn ident_pat_text(
    tables: &Tables,
    ns: Seq<char>,
    id: NodeId,
    ident: Seq<char>,
) -> Result<Seq<char>, TransError> {
    match variant_at(tables, ns, id) {
        Err(e) => Err(e),
        Ok(Some(v)) => Ok(variant_head("enum"@, v) + " 0"@),
        Ok(None) => {
            if !tables.def_map@.contains_key(id) || tables.def_map@[id] is Local {
                Ok("var "@ + ident)
            } else {
                match mangled_name(tables, ns, tables.def_map@[id].spec_def_id()) {
                    Ok(name) => Ok("const "@ + name),
                    Err(e) => Err(e),
                }
            }
        },
    }
}

/// The outcomes of translating each expression of `es`.
pub open spec fn exprs_outcomes(tables: &Tables, ns: Seq<char>, es: Seq<Expr>) -> Seq<Outcome>
    decreases es, 0nat,
{
    Seq::new(
        es.len(),
        |i: int|
            if 0 <= i < es.len() {
                expr_outcome(tables, ns, es[i])
            } else {
                pure_outcome(Ok(Seq::empty()))
            },
    )
}

/// The outcomes of translating each pattern of `ps`.
pub open spec fn pats_outcomes(tables: &Tables, ns: Seq<char>, ps: Seq<Pat>) -> Seq<Outcome>
    decreases ps, 0nat,
{
    Seq::new(
        ps.len(),
        |i: int|
            if 0 <= i < ps.len() {
                pat_outcome(tables, ns, ps[i])
            } else {
                pure_outcome(Ok(Seq::empty()))
            },
    )
}

/// The outcomes of translating each statement of `ss`.
pub open spec fn stmts_outcomes(tables: &Tables, ns: Seq<char>, ss: Seq<Stmt>) -> Seq<Outcome>
    decreases ss, 0nat,
{
    Seq::new(
        ss.len(),
        |i: int|
            if 0 <= i < ss.len() {
                stmt_outcome(tables, ns, ss[i])
            } else {
                pure_outcome(Ok(Seq::empty()))
            },
    )
}

/// The outcomes of translating each arm of `arms`.
pub open spec fn arms_outcomes(tables: &Tables, ns: Seq<char>, arms: Seq<Arm>) -> Seq<Outcome>
    decreases arms, 0nat,
{
    Seq::new(
        arms.len(),
        |i: int|
            if 0 <= i < arms.len() {
                arm_outcome(tables, ns, arms[i])
            } else {
                pure_outcome(Ok(Seq::empty()))
            },
    )
}

/// The outcomes of translating each field of `fs`.
pub open spec fn fields_outcomes(tables: &Tables, ns: Seq<char>, fs: Seq<Field>) -> Seq<Outcome>
    decreases fs, 0nat,
{
    Seq::new(
        fs.len(),
        |i: int|
            if 0 <= i < fs.len() {
                field_outcome(tables, ns, fs[i])
            } else {
                pure_outcome(Ok(Seq::empty()))
            },
    )
}

/// The outcome of translating a field of a struct literal.
#[verifier::opaque]
pub open spec fn field_outcome(tables: &Tables, ns: Seq<char>, f: Field) -> Outcome
    decreases f, 0nat,
{
    let x = expr_outcome(tables, ns, f.expr);
    Outcome { text: f.ident@ + " "@ + x.text, effect: x.effect }
}

/// The outcome of translating a match arm.
#[verifier::opaque]
pub open spec fn arm_outcome(tables: &Tables, ns: Seq<char>, a: Arm) -> Outcome
    decreases a, 0nat,
{
    if a.pats@.len() != 1 {
        pure_outcome(Err(TransError::Unsupported(Construct::ArmPatterns)))
    } else if a.guard is Some {
        pure_outcome(Err(TransError::Unsupported(Construct::ArmGuard)))
    } else {
        let p = pat_outcome(tables, ns, a.pats@[0]);
        let b = expr_outcome(tables, ns, a.body);
        Outcome {
            text: "{ "@ + p.text + " >> "@ + b.text + " }"@,
            effect: p.effect.followed_by(b.effect),
        }
    }
}

/// The outcome of translating the variant of a pattern that is no literal.
#[verifier::opaque]
pub open spec fn pat_variant_outcome(tables: &Tables, ns: Seq<char>, p: Pat) -> Outcome
    decreases p, 0nat,
{
    match p.kind {
        PatKind::Wild => pure_outcome(Ok("wild"@)),
        PatKind::Ident(name, None) => pure_outcome(ident_pat_text(tables, ns, p.id, name@)),
        PatKind::Enum(Some(args)) => match variant_at(tables, ns, p.id) {
            Err(e) => pure_outcome(Err(e)),
            Ok(None) => pure_outcome(Err(TransError::Unsupported(Construct::PatNotVariant))),
            Ok(Some(v)) => {
                let l = list_outcome(pats_outcomes(tables, ns, args@));
                Outcome { text: variant_head("enum"@, v) + " "@ + l.text, effect: l.effect }
            },
        },
        PatKind::Tup(args) => {
            let l = list_outcome(pats_outcomes(tables, ns, args@));
            Outcome { text: "tuple"@ + " "@ + l.text, effect: l.effect }
        },
        _ => pure_outcome(Err(TransError::Unsupported(Construct::PatKind))),
    }
}

/// The outcome of translating a pattern. A literal pattern is translated
/// as the literal expression; any other is its variant wrapped in its
/// type.
#[verifier::opaque]
pub open spec fn pat_outcome(tables: &Tables, ns: Seq<char>, p: Pat) -> Outcome
    decreases p, 1nat,
{
    match p.kind {
        PatKind::Lit(x) => expr_outcome(tables, ns, *x),
        _ => {
            let v = pat_variant_outcome(tables, ns, p);
            let t = typed_outcome(tables, ns, p.id, v.text);
            Outcome { text: t.text, effect: v.effect.followed_by(t.effect) }
        },
    }
}

/// The outcome of translating a local binding.
#[verifier::opaque]
pub open spec fn local_outcome(tables: &Tables, ns: Seq<char>, l: Local) -> Outcome
    decreases l, 0nat,
{
    if binding_name(l.pat) is None {
        pure_outcome(Err(TransError::Unsupported(Construct::LocalPattern)))
    } else if l.init is None {
        pure_outcome(Err(TransError::Unsupported(Construct::UninitLocal)))
    } else if !tables.node_types@.contains_key(l.id) {
        pure_outcome(Err(TransError::Missing(Table::NodeTypes)))
    } else {
        let t = ty_outcome(tables, ns, tables.node_types@[l.id]);
        let x = expr_outcome(tables, ns, l.init->Some_0);
        Outcome {
            text: "let "@ + binding_name(l.pat)->Some_0 + " "@ + t.text + " "@ + x.text,
            effect: t.effect.followed_by(x.effect),
        }
    }
}

/// The outcome of translating a declaration.
#[verifier::opaque]
pub open spec fn decl_outcome(tables: &Tables, ns: Seq<char>, d: Decl) -> Outcome
    decreases d, 0nat,
{
    match d {
        Decl::Local(l) => local_outcome(tables, ns, l),
        Decl::Item => pure_outcome(Ok("expr ([unit] simple_literal _DeclItem)"@)),
    }
}

/// The outcome of translating a statement.
#[verifier::opaque]
pub open spec fn stmt_outcome(tables: &Tables, ns: Seq<char>, s: Stmt) -> Outcome
    decreases s, 0nat,
{
    match s {
        Stmt::Decl(d) => {
            let o = decl_outcome(tables, ns, d);
            Outcome { text: "\t"@ + o.text + ";\n"@, effect: o.effect }
        },
        Stmt::Expr(x) => {
            let o = expr_outcome(tables, ns, x);
            Outcome { text: "\texpr "@ + o.text + ";\n"@, effect: o.effect }
        },
        Stmt::Semi(x) => {
            let o = expr_outcome(tables, ns, x);
            Outcome { text: "\texpr "@ + o.text + ";\n"@, effect: o.effect }
        },
        Stmt::Mac => pure_outcome(Err(TransError::Unsupported(Construct::MacroStmt))),
    }
}

/// The outcome of translating the statements and the final expression of
/// the block `b` under the opening word `tag`. Where the block has no
/// final expression, the unit literal named `unit` stands for it.
#[verifier::opaque]
pub open spec fn body_outcome(
    tables: &Tables,
    ns: Seq<char>,
    b: Block,
    tag: Seq<char>,
    unit: Seq<char>,
) -> Outcome
    decreases b, 0nat,
{
    let s = list_outcome(stmts_outcomes(tables, ns, b.stmts@));
    let x = match b.expr {
        Some(x) => expr_outcome(tables, ns, *x),
        None => pure_outcome(Ok(unit_text(unit))),
    };
    Outcome { text: block_form(tag, s.text, x.text), effect: s.effect.followed_by(x.effect) }
}

/// The outcome of translating a block.
#[verifier::opaque]
pub open spec fn block_outcome(tables: &Tables, ns: Seq<char>, b: Block) -> Outcome
    decreases b, 1nat,
{
    body_outcome(tables, ns, b, rules_text(b.rules), "_Block"@)
}

/// The outcome of translating the variant of an expression: the form that
/// its construct takes, before its type is wrapped around it.
#[verifier::opaque]
pub open spec fn variant_outcome(tables: &Tables, ns: Seq<char>, e: Expr) -> Outcome
    decreases e, 0nat,
{
    match e.kind {
        ExprKind::Call(f, args) => {
            let h = call_head_outcome(tables, ns, f.id);
            let a = list_outcome(exprs_outcomes(tables, ns, args@));
            Outcome { text: h.text + " "@ + a.text, effect: h.effect.followed_by(a.effect) }
        },
        ExprKind::MethodCall(n_tys, args) => {
            if !tables.method_map@.contains_key(e.id) {
                pure_outcome(Err(TransError::Missing(Table::MethodCalls)))
            } else {
                let parts = exprs_outcomes(tables, ns, args@);
                let m = if n_tys != 0 {
                    pure_outcome(Err(TransError::Unsupported(Construct::MethodTypeArgs)))
                } else {
                    method_call_outcome(tables, ns, tables.method_map@[e.id], texts_of(parts))
                };
                Outcome { text: m.text, effect: effects_of(parts).followed_by(m.effect) }
            }
        },
        ExprKind::Tup(xs) => {
            if xs@.len() == 0 {
                pure_outcome(Ok("simple_literal _"@))
            } else {
                let l = list_outcome(exprs_outcomes(tables, ns, xs@));
                Outcome { text: "tuple_literal"@ + " "@ + l.text, effect: l.effect }
            }
        },
        ExprKind::Binary(op, a, b) => {
            let oa = expr_outcome(tables, ns, *a);
            let ob = expr_outcome(tables, ns, *b);
            if tables.method_map@.contains_key(e.id) {
                let m = method_call_outcome(
                    tables,
                    ns,
                    tables.method_map@[e.id],
                    seq![oa.text, ob.text],
                );
                Outcome {
                    text: m.text,
                    effect: oa.effect.followed_by(ob.effect).followed_by(m.effect),
                }
            } else {
                Outcome {
                    text: binop_form(op, oa.text, ob.text),
                    effect: oa.effect.followed_by(ob.effect),
                }
            }
        },
        ExprKind::Unary(op, a) => {
            let oa = expr_outcome(tables, ns, *a);
            if tables.method_map@.contains_key(e.id) {
                let m = method_call_outcome(tables, ns, tables.method_map@[e.id], seq![oa.text]);
                Outcome { text: m.text, effect: oa.effect.followed_by(m.effect) }
            } else {
                Outcome { text: unop_form(op, oa.text), effect: oa.effect }
            }
        },
        ExprKind::Lit(l) => {
            let t = lit_text(l);
            Outcome { text: "simple_literal"@ + " "@ + t->Ok_0, effect: Effect::check(t) }
        },
        ExprKind::Cast(x, ty) => {
            let ox = expr_outcome(tables, ns, *x);
            let ot = source_ty_outcome(tables, ns, ty);
            Outcome {
                text: "cast"@ + " "@ + ox.text + " "@ + ot.text,
                effect: ox.effect.followed_by(ot.effect),
            }
        },
        ExprKind::If(c, then, els) => {
            if !tables.node_types@.contains_key(then.id) {
                pure_outcome(Err(TransError::Missing(Table::NodeTypes)))
            } else {
                let oc = expr_outcome(tables, ns, *c);
                let ot = ty_outcome(tables, ns, tables.node_types@[then.id]);
                let ob = block_outcome(tables, ns, *then);
                let oe = match els {
                    Some(x) => expr_outcome(tables, ns, *x),
                    None => pure_outcome(Ok(unit_text("_ExprIf"@))),
                };
                Outcome {
                    text: if_form(oc.text, ot.text, ob.text, oe.text),
                    effect: oc.effect.followed_by(ot.effect).followed_by(ob.effect).followed_by(
                        oe.effect,
                    ),
                }
            }
        },
        ExprKind::Match(x, arms) => {
            let ox = expr_outcome(tables, ns, *x);
            let l = list_outcome(arms_outcomes(tables, ns, arms@));
            Outcome {
                text: "match"@ + " "@ + ox.text + " "@ + l.text,
                effect: ox.effect.followed_by(l.effect),
            }
        },
        ExprKind::Block(b) => block_outcome(tables, ns, *b),
        ExprKind::Assign(l, r) => {
            let ol = expr_outcome(tables, ns, *l);
            let or = expr_outcome(tables, ns, *r);
            Outcome {
                text: "assign"@ + " "@ + ol.text + " "@ + or.text,
                effect: ol.effect.followed_by(or.effect),
            }
        },
        ExprKind::Field(x, name) => {
            let ox = expr_outcome(tables, ns, *x);
            Outcome { text: "field"@ + " "@ + ox.text + " "@ + name@, effect: ox.effect }
        },
        ExprKind::Index(_, _) => pure_outcome(Err(TransError::Unsupported(Construct::Index))),
        ExprKind::Range => pure_outcome(Err(TransError::Unsupported(Construct::Range))),
        ExprKind::Path(ident) => pure_outcome(path_text(tables, ns, e.id, ident@)),
        ExprKind::AddrOf(_, x) => {
            let ox = expr_outcome(tables, ns, *x);
            Outcome { text: "addr_of"@ + " "@ + ox.text, effect: ox.effect }
        },
        ExprKind::Ret(x) => {
            let ox = match x {
                Some(x) => expr_outcome(tables, ns, *x),
                None => pure_outcome(Ok(unit_text("_ExprRet"@))),
            };
            Outcome { text: "return"@ + " "@ + ox.text, effect: ox.effect }
        },
        ExprKind::Struct(fields, base) => {
            if base is Some {
                pure_outcome(Err(TransError::Unsupported(Construct::StructBase)))
            } else {
                let l = list_outcome(fields_outcomes(tables, ns, fields@));
                Outcome { text: "struct_literal"@ + " "@ + l.text, effect: l.effect }
            }
        },
        ExprKind::Paren(x) => expr_outcome(tables, ns, *x),
        ExprKind::Other => pure_outcome(Err(TransError::Unsupported(Construct::ExprKind))),
    }
}

/// The outcome of translating an expression: its variant, wrapped in its
/// type unless it is a parenthesization, with its implicit coercion
/// applied.
#[verifier::opaque]
pub open spec fn expr_outcome(tables: &Tables, ns: Seq<char>, e: Expr) -> Outcome
    decreases e, 1nat,
{
    let v = variant_outcome(tables, ns, e);
    let f = finished_outcome(tables, ns, e.id, !(e.kind is Paren), v.text);
    Outcome { text: f.text, effect: v.effect.followed_by(f.effect) }
}

} // verus!
