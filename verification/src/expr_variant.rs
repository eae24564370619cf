//! The forms that the constructs of expressions take.

use vstd::prelude::*;
use vstd::string::*;
use crate::ast::{Block, Expr, ExprKind, Field, Lit, UnOp};
use crate::call::{trans_call_head, trans_method_call};
use crate::context::{delivers, TransCtxt};
use crate::errors::{Construct, Table, TransError};
use crate::expr_enc::{
    finish_list, tagged, tagged2, trans_arms, trans_exprs, trans_fields, trans_path, unit_literal,
};
use crate::expr_spec::{arm_outcome, block_outcome, expr_outcome, field_outcome, variant_outcome};
use crate::outcome::views;
use crate::registry::replay;
use crate::tables::{lookup, Tables};

verus! {

impl Expr {
    /// Translates a call or a method call.
    fn trans_call(&self, tables: &Tables, ctx: &mut TransCtxt) -> (r: Result<String, TransError>)
        requires
            self.kind is Call || self.kind is MethodCall,
        ensures
            delivers(*old(ctx), *final(ctx), r, variant_outcome(tables, old(ctx).ns(), *self)),
        decreases self, 0nat,
    {
        reveal_with_fuel(variant_outcome, 1);
        reveal_with_fuel(expr_outcome, 1);
        reveal_with_fuel(block_outcome, 1);
        reveal_with_fuel(arm_outcome, 1);
        reveal_with_fuel(field_outcome, 1);
        reveal_with_fuel(replay, 4);
        match &self.kind {
            ExprKind::Call(f, args) => {
                let h = trans_call_head(tables, ctx, f.id)?;
                let a = finish_list(trans_exprs(tables, ctx, args))?;
                Ok(tagged(h.as_str(), &a))
            },
            ExprKind::MethodCall(n_tys, args) => {
                let callee = match lookup(&tables.method_map, self.id) {
                    Some(callee) => callee,
                    None => {
                        return Err(TransError::Missing(Table::MethodCalls));
                    },
                };
                let arg_strs = trans_exprs(tables, ctx, args)?;
                if *n_tys != 0 {
                    return Err(TransError::Unsupported(Construct::MethodTypeArgs));
                }
                trans_method_call(tables, ctx, callee, arg_strs)
            },
            _ => Err(TransError::Unsupported(Construct::ExprKind)),
        }
    }

    /// Translates a binary or unary operation.
    fn trans_operator(&self, tables: &Tables, ctx: &mut TransCtxt) -> (r: Result<String, TransError>)
        requires
            self.kind is Binary || self.kind is Unary,
        ensures
            delivers(*old(ctx), *final(ctx), r, variant_outcome(tables, old(ctx).ns(), *self)),
        decreases self, 0nat,
    {
        reveal_with_fuel(variant_outcome, 1);
        reveal_with_fuel(expr_outcome, 1);
        reveal_with_fuel(block_outcome, 1);
        reveal_with_fuel(arm_outcome, 1);
        reveal_with_fuel(field_outcome, 1);
        reveal_with_fuel(replay, 4);
        match &self.kind {
            ExprKind::Binary(op, a, b) => {
                let sa = a.trans(tables, ctx)?;
                let sb = b.trans(tables, ctx)?;
                match lookup(&tables.method_map, self.id) {
                    Some(callee) => {
                        let ghost texts = seq![sa@, sb@];
                        let mut arg_strs: Vec<String> = Vec::new();
                        arg_strs.push(sa);
                        arg_strs.push(sb);
                        assert(views(arg_strs@) =~= texts);
                        trans_method_call(tables, ctx, callee, arg_strs)
                    },
                    None => {
                        let head = tagged("binop", &String::from_str(op.token()));
                        Ok(tagged2(head.as_str(), &sa, sb.as_str()))
                    },
                }
            },
            ExprKind::Unary(op, a) => {
                let sa = a.trans(tables, ctx)?;
                match lookup(&tables.method_map, self.id) {
                    Some(callee) => {
                        let ghost texts = seq![sa@];
                        let mut arg_strs: Vec<String> = Vec::new();
                        arg_strs.push(sa);
                        assert(views(arg_strs@) =~= texts);
                        trans_method_call(tables, ctx, callee, arg_strs)
                    },
                    None => {
                        match op {
                            UnOp::Deref => Ok(tagged("deref", &sa)),
                            _ => Ok(tagged2("unop", &String::from_str(op.token()), sa.as_str())),
                        }
                    },
                }
            },
            _ => Err(TransError::Unsupported(Construct::ExprKind)),
        }
    }

    /// Translates a conditional or a match.
    fn trans_branch(&self, tables: &Tables, ctx: &mut TransCtxt) -> (r: Result<String, TransError>)
        requires
            self.kind is If || self.kind is Match,
        ensures
            delivers(*old(ctx), *final(ctx), r, variant_outcome(tables, old(ctx).ns(), *self)),
        decreases self, 0nat,
    {
        reveal_with_fuel(variant_outcome, 1);
        reveal_with_fuel(expr_outcome, 1);
        reveal_with_fuel(block_outcome, 1);
        reveal_with_fuel(arm_outcome, 1);
        reveal_with_fuel(field_outcome, 1);
        reveal_with_fuel(replay, 4);
        match &self.kind {
            ExprKind::If(c, then, els) => {
                let ty = match lookup(&tables.node_types, then.id) {
                    Some(ty) => ty,
                    None => {
                        return Err(TransError::Missing(Table::NodeTypes));
                    },
                };
                let sc = c.trans(tables, ctx)?;
                let st = ty.trans(tables, ctx)?;
                let sb = then.trans(tables, ctx)?;
                let se = match els {
                    Some(x) => x.trans(tables, ctx)?,
                    None => unit_literal("_ExprIf"),
                };
                let mut out = String::from_str("match ");
                out.append(sc.as_str());
                out.append(" 2 { ([bool] simple_literal true) >> (");
                out.append(st.as_str());
                out.append(" ");
                out.append(sb.as_str());
                out.append(") } { ([bool] simple_literal false) >> ");
                out.append(se.as_str());
                out.append(" }");
                Ok(out)
            },
            ExprKind::Match(x, arms) => {
                let sx = x.trans(tables, ctx)?;
                let l = finish_list(trans_arms(tables, ctx, arms))?;
                Ok(tagged2("match", &sx, l.as_str()))
            },
            _ => Err(TransError::Unsupported(Construct::ExprKind)),
        }
    }

    /// Translates a literal, a tuple or a struct literal.
    fn trans_literal(&self, tables: &Tables, ctx: &mut TransCtxt) -> (r: Result<String, TransError>)
        requires
            self.kind is Tup || self.kind is Lit || self.kind is Struct,
        ensures
            delivers(*old(ctx), *final(ctx), r, variant_outcome(tables, old(ctx).ns(), *self)),
        decreases self, 0nat,
    {
        reveal_with_fuel(variant_outcome, 1);
        reveal_with_fuel(expr_outcome, 1);
        reveal_with_fuel(block_outcome, 1);
        reveal_with_fuel(arm_outcome, 1);
        reveal_with_fuel(field_outcome, 1);
        reveal_with_fuel(replay, 4);
        match &self.kind {
            ExprKind::Tup(xs) => {
                if xs.len() == 0 {
                    Ok(String::from_str("simple_literal _"))
                } else {
                    let l = finish_list(trans_exprs(tables, ctx, xs))?;
                    Ok(tagged("tuple_literal", &l))
                }
            },
            ExprKind::Lit(l) => {
                let t = l.trans()?;
                Ok(tagged("simple_literal", &t))
            },
            ExprKind::Struct(fields, base) => {
                if base.is_some() {
                    return Err(TransError::Unsupported(Construct::StructBase));
                }
                let l = finish_list(trans_fields(tables, ctx, fields))?;
                Ok(tagged("struct_literal", &l))
            },
            _ => Err(TransError::Unsupported(Construct::ExprKind)),
        }
    }

    /// Translates an assignment, a cast, a field access or an address.
    fn trans_place(&self, tables: &Tables, ctx: &mut TransCtxt) -> (r: Result<String, TransError>)
        requires
            self.kind is Cast || self.kind is Assign || self.kind is Field || self.kind is AddrOf,
        ensures
            delivers(*old(ctx), *final(ctx), r, variant_outcome(tables, old(ctx).ns(), *self)),
        decreases self, 0nat,
    {
        reveal_with_fuel(variant_outcome, 1);
        reveal_with_fuel(expr_outcome, 1);
        reveal_with_fuel(block_outcome, 1);
        reveal_with_fuel(arm_outcome, 1);
        reveal_with_fuel(field_outcome, 1);
        reveal_with_fuel(replay, 4);
        match &self.kind {
            ExprKind::Cast(x, ty) => {
                let sx = x.trans(tables, ctx)?;
                let st = ty.trans(tables, ctx)?;
                Ok(tagged2("cast", &sx, st.as_str()))
            },
            ExprKind::Assign(l, r) => {
                let sl = l.trans(tables, ctx)?;
                let sr = r.trans(tables, ctx)?;
                Ok(tagged2("assign", &sl, sr.as_str()))
            },
            ExprKind::Field(x, name) => {
                let sx = x.trans(tables, ctx)?;
                Ok(tagged2("field", &sx, name.as_str()))
            },
            ExprKind::AddrOf(_, x) => {
                let sx = x.trans(tables, ctx)?;
                Ok(tagged("addr_of", &sx))
            },
            _ => Err(TransError::Unsupported(Construct::ExprKind)),
        }
    }

    /// Translates a block, a return or a parenthesization.
    fn trans_flow(&self, tables: &Tables, ctx: &mut TransCtxt) -> (r: Result<String, TransError>)
        requires
            self.kind is Block || self.kind is Ret || self.kind is Paren,
        ensures
            delivers(*old(ctx), *final(ctx), r, variant_outcome(tables, old(ctx).ns(), *self)),
        decreases self, 0nat,
    {
        reveal_with_fuel(variant_outcome, 1);
        reveal_with_fuel(expr_outcome, 1);
        reveal_with_fuel(block_outcome, 1);
        reveal_with_fuel(arm_outcome, 1);
        reveal_with_fuel(field_outcome, 1);
        reveal_with_fuel(replay, 4);
        match &self.kind {
            ExprKind::Block(b) => b.trans(tables, ctx),
            ExprKind::Ret(x) => {
                let sx = match x {
                    Some(x) => x.trans(tables, ctx)?,
                    None => unit_literal("_ExprRet"),
                };
                Ok(tagged("return", &sx))
            },
            ExprKind::Paren(x) => x.trans(tables, ctx),
            _ => Err(TransError::Unsupported(Construct::ExprKind)),
        }
    }

    /// Translates the variant of an expression.
    pub fn trans_variant(&self, tables: &Tables, ctx: &mut TransCtxt) -> (r: Result<
        String,
        TransError,
    >)
        ensures
            delivers(*old(ctx), *final(ctx), r, variant_outcome(tables, old(ctx).ns(), *self)),
        decreases self, 1nat,
    {
        match &self.kind {
            ExprKind::Call(_, _) => self.trans_call(tables, ctx),
            ExprKind::MethodCall(_, _) => self.trans_call(tables, ctx),
            ExprKind::Binary(_, _, _) => self.trans_operator(tables, ctx),
            ExprKind::Unary(_, _) => self.trans_operator(tables, ctx),
            ExprKind::If(_, _, _) => self.trans_branch(tables, ctx),
            ExprKind::Match(_, _) => self.trans_branch(tables, ctx),
            ExprKind::Tup(_) => self.trans_literal(tables, ctx),
            ExprKind::Lit(_) => self.trans_literal(tables, ctx),
            ExprKind::Struct(_, _) => self.trans_literal(tables, ctx),
            ExprKind::Cast(_, _) => self.trans_place(tables, ctx),
            ExprKind::Assign(_, _) => self.trans_place(tables, ctx),
            ExprKind::Field(_, _) => self.trans_place(tables, ctx),
            ExprKind::AddrOf(_, _) => self.trans_place(tables, ctx),
            ExprKind::Block(_) => self.trans_flow(tables, ctx),
            ExprKind::Ret(_) => self.trans_flow(tables, ctx),
            ExprKind::Paren(_) => self.trans_flow(tables, ctx),
            ExprKind::Index(_, _) => {
                reveal_with_fuel(variant_outcome, 1);
                Err(TransError::Unsupported(Construct::Index))
            },
            ExprKind::Range => {
                reveal_with_fuel(variant_outcome, 1);
                Err(TransError::Unsupported(Construct::Range))
            },
            ExprKind::Path(ident) => {
                reveal_with_fuel(variant_outcome, 1);
                trans_path(tables, ctx.crate_name.as_str(), self.id, ident)
            },
            ExprKind::Other => {
                reveal_with_fuel(variant_outcome, 1);
                Err(TransError::Unsupported(Construct::ExprKind))
            },
        }
    }
}

} // verus!
