//! The encoders of statements, declarations and blocks.

use vstd::prelude::*;
use vstd::string::*;
use crate::ast::{Block, Decl, Expr, Local, PatKind, Stmt};
use crate::context::{advanced, delivers, delivers_each, list_step, TransCtxt};
use crate::errors::{Construct, Table, TransError};
use crate::expr_enc::{finish_list, unit_literal};
use crate::expr_spec::{
    block_outcome, body_outcome, decl_outcome, expr_outcome, local_outcome, stmt_outcome,
    stmts_outcomes,
};
use crate::outcome::{effects_of, texts_of, views, Outcome};
use crate::registry::replay;
use crate::tables::{lookup, Tables};

verus! {

/// Translates each statement of `ss`, in order.
pub fn trans_stmts(tables: &Tables, ctx: &mut TransCtxt, ss: &Vec<Stmt>) -> (r: Result<
    Vec<String>,
    TransError,
>)
    ensures
        delivers_each(*old(ctx), *final(ctx), r, stmts_outcomes(tables, old(ctx).ns(), ss@)),
    decreases ss, 0nat,
{
    let ghost c0 = *ctx;
    let ghost parts = stmts_outcomes(tables, ctx.ns(), ss@);
    let mut strs: Vec<String> = Vec::new();
    let mut i: usize = 0;
    assert(parts.take(0) =~= Seq::<Outcome>::empty());
    assert(views(strs@) =~= texts_of(parts.take(0)));
    while i < ss.len()
        invariant
            i <= ss.len(),
            c0 == *old(ctx),
            parts == stmts_outcomes(tables, c0.ns(), ss@),
            advanced(c0, *ctx, effects_of(parts.take(i as int))),
            effects_of(parts.take(i as int)).failure is None,
            views(strs@) == texts_of(parts.take(i as int)),
        decreases ss.len() - i,
    {
        let ghost ci = *ctx;
        let r = ss[i].trans(tables, ctx);
        proof {
            reveal_with_fuel(stmt_outcome, 1);
            list_step(c0, ci, *ctx, parts, i as int, r);
        }
        match r {
            Ok(s) => {
                strs.push(s);
                assert(views(strs@) =~= texts_of(parts.take(i + 1)));
            },
            Err(e) => {
                return Err(e);
            },
        }
        i += 1;
    }
    assert(parts.take(i as int) =~= parts);
    Ok(strs)
}

impl Local {
    /// Translates a local binding.
    pub fn trans(&self, tables: &Tables, ctx: &mut TransCtxt) -> (r: Result<String, TransError>)
        ensures
            delivers(*old(ctx), *final(ctx), r, local_outcome(tables, old(ctx).ns(), *self)),
        decreases self, 0nat,
    {
        reveal_with_fuel(local_outcome, 1);
        reveal_with_fuel(expr_outcome, 1);
        let name = match &self.pat.kind {
            PatKind::Ident(name, _) => name,
            _ => {
                return Err(TransError::Unsupported(Construct::LocalPattern));
            },
        };
        let init = match &self.init {
            Some(init) => init,
            None => {
                return Err(TransError::Unsupported(Construct::UninitLocal));
            },
        };
        let ty = match lookup(&tables.node_types, self.id) {
            Some(ty) => ty,
            None => {
                return Err(TransError::Missing(Table::NodeTypes));
            },
        };
        let t = ty.trans(tables, ctx)?;
        let x = init.trans(tables, ctx)?;
        let mut out = String::from_str("let ");
        out.append(name.as_str());
        out.append(" ");
        out.append(t.as_str());
        out.append(" ");
        out.append(x.as_str());
        Ok(out)
    }
}

impl Decl {
    /// Translates a declaration.
    pub fn trans(&self, tables: &Tables, ctx: &mut TransCtxt) -> (r: Result<String, TransError>)
        ensures
            delivers(*old(ctx), *final(ctx), r, decl_outcome(tables, old(ctx).ns(), *self)),
        decreases self, 0nat,
    {
        reveal_with_fuel(decl_outcome, 1);
        reveal_with_fuel(local_outcome, 1);
        match self {
            Decl::Local(l) => l.trans(tables, ctx),
            Decl::Item => Ok(String::from_str("expr ([unit] simple_literal _DeclItem)")),
        }
    }
}

impl Stmt {
    /// Translates a statement.
    pub fn trans(&self, tables: &Tables, ctx: &mut TransCtxt) -> (r: Result<String, TransError>)
        ensures
            delivers(*old(ctx), *final(ctx), r, stmt_outcome(tables, old(ctx).ns(), *self)),
        decreases self, 0nat,
    {
        reveal_with_fuel(stmt_outcome, 1);
        reveal_with_fuel(decl_outcome, 1);
        reveal_with_fuel(expr_outcome, 1);
        match self {
            Stmt::Decl(d) => {
                let o = d.trans(tables, ctx)?;
                let mut out = String::from_str("\t");
                out.append(o.as_str());
                out.append(";\n");
                Ok(out)
            },
            Stmt::Expr(x) => {
                let o = x.trans(tables, ctx)?;
                let mut out = String::from_str("\texpr ");
                out.append(o.as_str());
                out.append(";\n");
                Ok(out)
            },
            Stmt::Semi(x) => {
                let o = x.trans(tables, ctx)?;
                let mut out = String::from_str("\texpr ");
                out.append(o.as_str());
                out.append(";\n");
                Ok(out)
            },
            Stmt::Mac => Err(TransError::Unsupported(Construct::MacroStmt)),
        }
    }
}

impl Block {
    /// Translates the statements and the final expression of this block
    /// under the opening word `tag`, with the unit literal named `unit`
    /// where the block has no final expression.
    pub fn trans_body(&self, tables: &Tables, ctx: &mut TransCtxt, tag: &str, unit: &str) -> (r:
        Result<String, TransError>)
        ensures
            delivers(
                *old(ctx),
                *final(ctx),
                r,
                body_outcome(tables, old(ctx).ns(), *self, tag@, unit@),
            ),
        decreases self, 0nat,
    {
        reveal_with_fuel(body_outcome, 1);
        reveal_with_fuel(stmt_outcome, 1);
        reveal_with_fuel(replay, 3);
        reveal_with_fuel(expr_outcome, 1);
        let s = finish_list(trans_stmts(tables, ctx, &self.stmts))?;
        let x = match &self.expr {
            Some(x) => x.trans(tables, ctx)?,
            None => unit_literal(unit),
        };
        let mut out = String::from_str(tag);
        out.append(" {\n");
        out.append(s.as_str());
        out.append("\t");
        out.append(x.as_str());
        out.append("\n}\n");
        Ok(out)
    }

    /// Translates a block.
    pub fn trans(&self, tables: &Tables, ctx: &mut TransCtxt) -> (r: Result<String, TransError>)
        ensures
            delivers(*old(ctx), *final(ctx), r, block_outcome(tables, old(ctx).ns(), *self)),
        decreases self, 1nat,
    {
        reveal_with_fuel(block_outcome, 1);
        reveal_with_fuel(body_outcome, 1);
        self.trans_body(tables, ctx, self.rules.rules(), "_Block")
    }
}

} // verus!
