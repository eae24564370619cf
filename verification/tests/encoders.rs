use ir_trans::adjust::{adjust_expr, autoref, deref_once, deref_times};
use ir_trans::ast::{
    Arm, BinOp, Block, Decl, Expr, ExprKind, Field, Generics, Lifetime, Lit, Local, Pat, PatKind,
    SourceTy, Stmt, UnOp, Unsafety,
};
use ir_trans::call::{find_variant, trans_call_head, trans_method_call};
use ir_trans::context::TransCtxt;
use ir_trans::defs::{DefId, ParamSpace};
use ir_trans::errors::{Construct, Table, TransError};
use ir_trans::item_enc::{combine_generics, trans_lifetimes};
use ir_trans::registry::Registry;
use ir_trans::tables::{
    Adjustment, AutoRef, Def, DefRegion, MethodCallee, MethodOrigin, Tables, TraitItemId,
};
use ir_trans::ty_enc::{trans_ptr_to, trans_ref_to, trans_regions, trans_tys};
use ir_trans::types::{
    BoundRegion, FloatWidth, IntWidth, Mutability, Region, RegionSubsts, Substs, Ty,
};

fn def(krate: u32, node: u32) -> DefId {
    DefId { krate, node }
}

fn strings(items: &[&str]) -> Vec<String> {
    items.iter().map(|s| s.to_string()).collect()
}

fn ctx() -> TransCtxt {
    TransCtxt::new("k".to_string())
}

fn i32t() -> Ty {
    Ty::Int(IntWidth::W32)
}

fn unit() -> Ty {
    Ty::Tuple(vec![])
}

fn ref_to(t: Ty) -> Ty {
    Ty::Ref(Region::Static, Mutability::Immutable, Box::new(t))
}

fn substs(regions: Vec<Region>, types: Vec<Ty>) -> Substs {
    Substs { regions: RegionSubsts::NonErased(regions), types }
}

fn no_substs() -> Substs {
    substs(vec![], vec![])
}

fn names_of(r: &Registry) -> Vec<String> {
    (0..r.len()).map(|i| r.get(i).name.clone()).collect()
}

fn ok(s: &str) -> Result<String, TransError> {
    Ok(s.to_string())
}

fn unsupported(c: Construct) -> Result<String, TransError> {
    Err(TransError::Unsupported(c))
}

fn missing(t: Table) -> Result<String, TransError> {
    Err(TransError::Missing(t))
}

fn lit(id: u32, n: u64) -> Expr {
    Expr { id, kind: ExprKind::Lit(Lit::Int(n)) }
}

fn path(id: u32, name: &str) -> Expr {
    Expr { id, kind: ExprKind::Path(name.to_string()) }
}

fn ident_pat(id: u32, name: &str) -> Pat {
    Pat { id, kind: PatKind::Ident(name.to_string(), None) }
}

/// Tables in which the nodes 1 to 9 are integers, x (node 50) and y
/// (node 51) are local integers, and a struct, an enum with a variant,
/// a constant and a function are declared.
fn base() -> Tables {
    let mut t = Tables::new();
    for id in 1..10 {
        t.node_types.insert(id, i32t());
    }
    t.paths.insert(def(0, 100), strings(&["S"]));
    t.paths.insert(def(0, 110), strings(&["E"]));
    t.paths.insert(def(0, 111), strings(&["E", "B"]));
    t.paths.insert(def(0, 120), strings(&["C"]));
    t.paths.insert(def(0, 130), strings(&["f"]));
    t.paths.insert(def(0, 140), strings(&["Tr"]));
    t.paths.insert(def(0, 141), strings(&["Tr", "get"]));
    t.paths.insert(def(2, 30), strings(&["core", "ops", "Add", "add"]));
    t.discriminants.insert(def(0, 111), 1);
    t.trait_items.insert(def(0, 140), vec![TraitItemId::Method(def(0, 141)), TraitItemId::Type(def(0, 142))]);
    t
}

fn adt_s() -> Ty {
    Ty::Adt(def(0, 100), no_substs())
}

fn adt_e() -> Ty {
    Ty::Adt(def(0, 110), no_substs())
}

// Types.

#[test]
fn scalar_types() {
    let t = Tables::new();
    let mut c = ctx();
    assert_eq!(Ty::Bool.trans(&t, &mut c), ok("[bool]"));
    assert_eq!(Ty::Char.trans(&t, &mut c), ok("[char]"));
    assert_eq!(Ty::Str.trans(&t, &mut c), ok("[str]"));
    assert_eq!(Ty::Int(IntWidth::W8).trans(&t, &mut c), ok("[int 8]"));
    assert_eq!(Ty::Int(IntWidth::W16).trans(&t, &mut c), ok("[int 16]"));
    assert_eq!(Ty::Int(IntWidth::W32).trans(&t, &mut c), ok("[int 32]"));
    assert_eq!(Ty::Int(IntWidth::W64).trans(&t, &mut c), ok("[int 64]"));
    assert_eq!(Ty::Uint(IntWidth::W8).trans(&t, &mut c), ok("[uint 8]"));
    assert_eq!(Ty::Uint(IntWidth::W64).trans(&t, &mut c), ok("[uint 64]"));
    assert_eq!(Ty::Float(FloatWidth::W32).trans(&t, &mut c), ok("[float 32]"));
    assert_eq!(Ty::Float(FloatWidth::W64).trans(&t, &mut c), ok("[float 64]"));
}

#[test]
fn native_width_counts_as_32() {
    let t = Tables::new();
    let mut c = ctx();
    assert_eq!(Ty::Int(IntWidth::Native).trans(&t, &mut c), ok("[int 32]"));
    assert_eq!(Ty::Uint(IntWidth::Native).trans(&t, &mut c), ok("[uint 32]"));
    assert_eq!(IntWidth::Native.bits(), 32);
    assert_eq!(IntWidth::W16.bits(), 16);
    assert_eq!(FloatWidth::W64.bits(), 64);
}

#[test]
fn slices_arrays_and_pointers() {
    let t = Tables::new();
    let mut c = ctx();
    assert_eq!(Ty::Slice(Box::new(i32t())).trans(&t, &mut c), ok("[vec [int 32]]"));
    assert_eq!(
        Ty::Array(Box::new(Ty::Uint(IntWidth::W8)), 16).trans(&t, &mut c),
        ok("[fixed_vec 16 [uint 8]]")
    );
    assert_eq!(
        Ty::RawPtr(Mutability::Mutable, Box::new(i32t())).trans(&t, &mut c),
        ok("[ptr_mut [int 32]]")
    );
    assert_eq!(
        Ty::RawPtr(Mutability::Immutable, Box::new(i32t())).trans(&t, &mut c),
        ok("[ptr [int 32]]")
    );
    assert_eq!(
        Ty::Ref(Region::Static, Mutability::Immutable, Box::new(Ty::Str)).trans(&t, &mut c),
        ok("[ref r_static [str]]")
    );
    assert_eq!(
        Ty::Ref(Region::Scope(7), Mutability::Mutable, Box::new(i32t())).trans(&t, &mut c),
        ok("[ref_mut r_scope_7 [int 32]]")
    );
    assert_eq!(
        trans_ref_to(&t, &mut c, &Region::EarlyBound(3), Mutability::Mutable, &Ty::Bool),
        ok("[ref_mut r_named_0_3 [bool]]")
    );
    assert_eq!(trans_ptr_to(&t, &mut c, Mutability::Immutable, &Ty::Bool), ok("[ptr [bool]]"));
    assert_eq!(Mutability::Mutable.ref_tag(), "ref_mut");
    assert_eq!(Mutability::Immutable.ptr_tag(), "ptr");
}

#[test]
fn tuples_collapse_to_unit_when_empty() {
    let t = Tables::new();
    let mut c = ctx();
    assert_eq!(Ty::Tuple(vec![]).trans(&t, &mut c), ok("[unit]"));
    assert_eq!(Ty::Tuple(vec![i32t()]).trans(&t, &mut c), ok("[tuple 1 [int 32]]"));
    assert_eq!(
        Ty::Tuple(vec![i32t(), Ty::Bool, unit()]).trans(&t, &mut c),
        ok("[tuple 3 [int 32] [bool] [unit]]")
    );
    assert_eq!(trans_tys(&t, &mut c, &vec![]), ok("0"));
    assert_eq!(trans_tys(&t, &mut c, &vec![Ty::Bool, Ty::Char]), ok("2 [bool] [char]"));
}

#[test]
fn type_parameters_by_space_and_index() {
    let t = Tables::new();
    let mut c = ctx();
    assert_eq!(Ty::Param(ParamSpace::Function, 0).trans(&t, &mut c), ok("[var f_0]"));
    assert_eq!(Ty::Param(ParamSpace::Type, 12).trans(&t, &mut c), ok("[var t_12]"));
    assert_eq!(Ty::Param(ParamSpace::SelfSpace, 0).trans(&t, &mut c), ok("[var s_0]"));
}

#[test]
fn algebraic_types_carry_name_and_substitution() {
    let t = base();
    let mut c = ctx();
    assert_eq!(adt_s().trans(&t, &mut c), ok("[adt k_S 0 0]"));
    assert_eq!(
        Ty::Adt(def(0, 110), substs(vec![Region::Static, Region::Scope(1)], vec![i32t()]))
            .trans(&t, &mut c),
        ok("[adt k_E 2 r_static r_scope_1 1 [int 32]]")
    );
    assert_eq!(
        substs(vec![Region::Static], vec![Ty::Bool, adt_s()]).trans(&t, &mut c),
        ok("1 r_static 2 [bool] [adt k_S 0 0]")
    );
    assert_eq!(c.observed_abstract_types.len(), 0);
    assert_eq!(c.observed_abstract_fns.len(), 0);
}

#[test]
fn unsupported_types_fail() {
    let t = base();
    let mut c = ctx();
    assert_eq!(Ty::Other.trans(&t, &mut c), unsupported(Construct::TypeKind));
    assert_eq!(
        Ty::Slice(Box::new(Ty::Other)).trans(&t, &mut c),
        unsupported(Construct::TypeKind)
    );
    assert_eq!(
        Ty::Adt(def(0, 100), Substs { regions: RegionSubsts::Erased, types: vec![] })
            .trans(&t, &mut c),
        unsupported(Construct::ErasedRegions)
    );
    assert_eq!(
        Ty::Adt(def(0, 999), no_substs()).trans(&t, &mut c),
        Err(TransError::UnresolvedPath(def(0, 999)))
    );
    assert_eq!(
        Ty::Ref(Region::Other, Mutability::Immutable, Box::new(i32t())).trans(&t, &mut c),
        unsupported(Construct::RegionKind)
    );
    assert_eq!(RegionSubsts::Erased.trans(), unsupported(Construct::ErasedRegions));
}

#[test]
fn projection_is_abstract_and_is_registered() {
    let t = base();
    let mut c = ctx();
    let p = Ty::Projection(
        def(0, 140),
        substs(vec![], vec![Ty::Param(ParamSpace::SelfSpace, 0)]),
        "Out".to_string(),
    );
    assert_eq!(p.trans(&t, &mut c), ok("[abstract k_Tr_Out 0 1 [var s_0]]"));
    assert_eq!(names_of(&c.observed_abstract_types), strings(&["k_Tr_Out"]));
    assert_eq!(c.observed_abstract_types.get(0).def, def(0, 140));
    assert_eq!(c.observed_abstract_fns.len(), 0);
    assert_eq!(p.trans(&t, &mut c), ok("[abstract k_Tr_Out 0 1 [var s_0]]"));
    assert_eq!(c.observed_abstract_types.len(), 1);
}

#[test]
fn projection_stays_registered_when_its_substitution_fails() {
    let t = base();
    let mut c = ctx();
    let p = Ty::Projection(
        def(0, 140),
        Substs { regions: RegionSubsts::Erased, types: vec![] },
        "Out".to_string(),
    );
    assert_eq!(p.trans(&t, &mut c), unsupported(Construct::ErasedRegions));
    assert_eq!(names_of(&c.observed_abstract_types), strings(&["k_Tr_Out"]));
}

#[test]
fn failure_keeps_what_was_observed_before_it() {
    let t = base();
    let mut c = ctx();
    let p = Ty::Projection(def(0, 140), no_substs(), "A".to_string());
    let q = Ty::Projection(def(0, 140), no_substs(), "B".to_string());
    let tuple = Ty::Tuple(vec![p, Ty::Other, q]);
    assert_eq!(tuple.trans(&t, &mut c), unsupported(Construct::TypeKind));
    assert_eq!(names_of(&c.observed_abstract_types), strings(&["k_Tr_A"]));
}

#[test]
fn projection_of_an_unknown_trait_registers_nothing() {
    let t = base();
    let mut c = ctx();
    let p = Ty::Projection(def(0, 999), no_substs(), "A".to_string());
    assert_eq!(p.trans(&t, &mut c), Err(TransError::UnresolvedPath(def(0, 999))));
    assert_eq!(c.observed_abstract_types.len(), 0);
}

#[test]
fn regions_by_kind() {
    assert_eq!(Region::EarlyBound(12).trans(), ok("r_named_0_12"));
    assert_eq!(Region::LateBound(BoundRegion::Anon(2)).trans(), ok("r_anon_2"));
    assert_eq!(Region::LateBound(BoundRegion::Named(def(1, 4))).trans(), ok("r_named_1_4"));
    assert_eq!(Region::Free(BoundRegion::Named(def(0, 9))).trans(), ok("r_named_0_9"));
    assert_eq!(Region::Free(BoundRegion::Anon(0)).trans(), ok("r_anon_0"));
    assert_eq!(Region::Static.trans(), ok("r_static"));
    assert_eq!(Region::Scope(33).trans(), ok("r_scope_33"));
    assert_eq!(Region::Other.trans(), unsupported(Construct::RegionKind));
    assert_eq!(
        Region::LateBound(BoundRegion::Other).trans(),
        unsupported(Construct::BoundRegionKind)
    );
    assert_eq!(BoundRegion::Anon(7).trans_extra(), ok("r_anon_7"));
    assert_eq!(trans_regions(&vec![]), ok("0"));
    assert_eq!(
        trans_regions(&vec![Region::Static, Region::EarlyBound(1)]),
        ok("2 r_static r_named_0_1")
    );
    assert_eq!(
        trans_regions(&vec![Region::Static, Region::Other, Region::LateBound(BoundRegion::Other)]),
        unsupported(Construct::RegionKind)
    );
}

#[test]
fn source_type_is_the_type_it_resolved_to() {
    let mut t = base();
    t.source_types.insert(60, Ty::Bool);
    let mut c = ctx();
    assert_eq!(SourceTy { id: 60 }.trans(&t, &mut c), ok("[bool]"));
    assert_eq!(SourceTy { id: 61 }.trans(&t, &mut c), missing(Table::SourceTypes));
}

#[test]
fn source_lifetimes() {
    let mut t = Tables::new();
    t.named_regions.insert(1, DefRegion::Static);
    t.named_regions.insert(2, DefRegion::EarlyBound(20));
    t.named_regions.insert(3, DefRegion::LateBound(30));
    t.named_regions.insert(4, DefRegion::Free);
    assert_eq!(Lifetime { id: 1 }.trans(&t), ok("r_static"));
    assert_eq!(Lifetime { id: 2 }.trans(&t), ok("r_named_0_20"));
    assert_eq!(Lifetime { id: 3 }.trans(&t), ok("r_named_0_30"));
    assert_eq!(Lifetime { id: 4 }.trans(&t), unsupported(Construct::FreeRegion));
    assert_eq!(Lifetime { id: 5 }.trans(&t), missing(Table::NamedRegions));
    assert_eq!(
        trans_lifetimes(&t, &vec![Lifetime { id: 2 }, Lifetime { id: 1 }]),
        ok("2 r_named_0_20 r_static")
    );
    assert_eq!(
        trans_lifetimes(&t, &vec![Lifetime { id: 2 }, Lifetime { id: 5 }, Lifetime { id: 4 }]),
        missing(Table::NamedRegions)
    );
}

// Generics.

#[test]
fn generics_are_flattened_by_space() {
    let g = Generics { lifetimes: vec![11, 12], ty_params: 2 };
    assert_eq!(g.trans_extra(ParamSpace::Type), "2 r_named_0_11 r_named_0_12 2 t_0 t_1");
    assert_eq!(g.trans_extra(ParamSpace::Function), "2 r_named_0_11 r_named_0_12 2 f_0 f_1");
    let none = Generics { lifetimes: vec![], ty_params: 0 };
    assert_eq!(none.trans_extra(ParamSpace::Type), "0 0");
}

#[test]
fn implementation_generics_come_before_member_generics() {
    let imp = Generics { lifetimes: vec![1], ty_params: 2 };
    let member = Generics { lifetimes: vec![2, 3], ty_params: 1 };
    let (lifetimes, ty_params) = combine_generics(&imp, &member);
    assert_eq!(lifetimes, strings(&["r_named_0_1", "r_named_0_2", "r_named_0_3"]));
    assert_eq!(ty_params, strings(&["t_0", "t_1", "f_0"]));
}

// Expressions.

#[test]
fn literals() {
    let mut t = base();
    t.node_types.insert(20, Ty::Bool);
    t.node_types.insert(21, Ty::Uint(IntWidth::W8));
    let mut c = ctx();
    assert_eq!(lit(1, 5).trans(&t, &mut c), ok("([int 32] simple_literal 5)"));
    assert_eq!(
        Expr { id: 20, kind: ExprKind::Lit(Lit::Bool(true)) }.trans(&t, &mut c),
        ok("([bool] simple_literal true)")
    );
    assert_eq!(
        Expr { id: 20, kind: ExprKind::Lit(Lit::Bool(false)) }.trans(&t, &mut c),
        ok("([bool] simple_literal false)")
    );
    assert_eq!(
        Expr { id: 21, kind: ExprKind::Lit(Lit::Byte(255)) }.trans(&t, &mut c),
        ok("([uint 8] simple_literal 255)")
    );
    assert_eq!(
        Expr { id: 1, kind: ExprKind::Lit(Lit::Other) }.trans(&t, &mut c),
        unsupported(Construct::LitKind)
    );
    assert_eq!(Lit::Int(0).trans(), ok("0"));
}

#[test]
fn expression_without_a_type_fails() {
    let t = base();
    let mut c = ctx();
    assert_eq!(lit(77, 5).trans(&t, &mut c), missing(Table::NodeTypes));
    assert_eq!(
        Expr { id: 77, kind: ExprKind::Paren(Box::new(lit(1, 5))) }.trans(&t, &mut c),
        missing(Table::NodeTypes)
    );
}

#[test]
fn tuple_literals() {
    let mut t = base();
    t.node_types.insert(20, unit());
    t.node_types.insert(21, Ty::Tuple(vec![i32t(), i32t()]));
    let mut c = ctx();
    assert_eq!(
        Expr { id: 20, kind: ExprKind::Tup(vec![]) }.trans(&t, &mut c),
        ok("([unit] simple_literal _)")
    );
    assert_eq!(
        Expr { id: 21, kind: ExprKind::Tup(vec![lit(1, 1), lit(2, 2)]) }.trans(&t, &mut c),
        ok("([tuple 2 [int 32] [int 32]] tuple_literal 2 ([int 32] simple_literal 1) ([int 32] simple_literal 2))")
    );
}

#[test]
fn parenthesization_is_transparent() {
    let t = base();
    let mut c = ctx();
    let inner = lit(1, 5).trans(&t, &mut c);
    assert_eq!(
        Expr { id: 2, kind: ExprKind::Paren(Box::new(lit(1, 5))) }.trans(&t, &mut c),
        inner
    );
    assert_eq!(inner, ok("([int 32] simple_literal 5)"));
}

#[test]
fn cast_names_the_target_type() {
    let mut t = base();
    t.node_types.insert(20, Ty::Uint(IntWidth::W8));
    t.source_types.insert(60, Ty::Uint(IntWidth::W8));
    let mut c = ctx();
    assert_eq!(
        Expr { id: 20, kind: ExprKind::Cast(Box::new(lit(1, 5)), SourceTy { id: 60 }) }
            .trans(&t, &mut c),
        ok("([uint 8] cast ([int 32] simple_literal 5) [uint 8])")
    );
    assert_eq!(
        Expr { id: 20, kind: ExprKind::Cast(Box::new(lit(1, 5)), SourceTy { id: 61 }) }
            .trans(&t, &mut c),
        missing(Table::SourceTypes)
    );
}

fn empty_block(id: u32) -> Block {
    Block { id, rules: Unsafety::Normal, stmts: vec![], expr: None }
}

#[test]
fn conditional_without_else_is_a_match_with_a_unit_arm() {
    let mut t = base();
    t.node_types.insert(20, unit());
    t.node_types.insert(21, Ty::Bool);
    t.node_types.insert(22, unit());
    let mut c = ctx();
    let e = Expr {
        id: 20,
        kind: ExprKind::If(
            Box::new(Expr { id: 21, kind: ExprKind::Lit(Lit::Bool(true)) }),
            Box::new(empty_block(22)),
            None,
        ),
    };
    assert_eq!(
        e.trans(&t, &mut c),
        ok("([unit] match ([bool] simple_literal true) 2 { ([bool] simple_literal true) >> ([unit] block {\n0\t([unit] simple_literal _Block)\n}\n) } { ([bool] simple_literal false) >> ([unit] simple_literal _ExprIf) })")
    );
}

#[test]
fn conditional_with_else() {
    let mut t = base();
    t.node_types.insert(21, Ty::Bool);
    let mut c = ctx();
    let then = Block { id: 3, rules: Unsafety::Normal, stmts: vec![], expr: Some(Box::new(lit(4, 1))) };
    let e = Expr {
        id: 2,
        kind: ExprKind::If(
            Box::new(Expr { id: 21, kind: ExprKind::Lit(Lit::Bool(false)) }),
            Box::new(then),
            Some(Box::new(lit(5, 2))),
        ),
    };
    assert_eq!(
        e.trans(&t, &mut c),
        ok("([int 32] match ([bool] simple_literal false) 2 { ([bool] simple_literal true) >> ([int 32] block {\n0\t([int 32] simple_literal 1)\n}\n) } { ([bool] simple_literal false) >> ([int 32] simple_literal 2) })")
    );
}

#[test]
fn conditional_needs_the_type_of_its_then_block() {
    let mut t = base();
    t.node_types.insert(21, Ty::Bool);
    let mut c = ctx();
    let e = Expr {
        id: 2,
        kind: ExprKind::If(
            Box::new(Expr { id: 21, kind: ExprKind::Lit(Lit::Other) }),
            Box::new(empty_block(88)),
            None,
        ),
    };
    assert_eq!(e.trans(&t, &mut c), missing(Table::NodeTypes));
}

#[test]
fn match_over_patterns() {
    let mut t = base();
    t.def_map.insert(2, Def::Local(50));
    let mut c = ctx();
    let e = Expr {
        id: 1,
        kind: ExprKind::Match(
            Box::new(path(2, "x")),
            vec![
                Arm {
                    pats: vec![Pat { id: 3, kind: PatKind::Lit(Box::new(lit(4, 1))) }],
                    guard: None,
                    body: lit(5, 10),
                },
                Arm { pats: vec![Pat { id: 6, kind: PatKind::Wild }], guard: None, body: lit(7, 20) },
            ],
        ),
    };
    assert_eq!(
        e.trans(&t, &mut c),
        ok("([int 32] match ([int 32] var x) 2 { ([int 32] simple_literal 1) >> ([int 32] simple_literal 10) } { ([int 32] wild) >> ([int 32] simple_literal 20) })")
    );
}

#[test]
fn arms_with_guards_or_several_patterns_fail() {
    let t = base();
    let mut c = ctx();
    let guarded = Arm {
        pats: vec![Pat { id: 6, kind: PatKind::Wild }],
        guard: Some(lit(1, 1)),
        body: lit(2, 2),
    };
    assert_eq!(guarded.trans(&t, &mut c), unsupported(Construct::ArmGuard));
    let two = Arm {
        pats: vec![Pat { id: 6, kind: PatKind::Wild }, Pat { id: 7, kind: PatKind::Wild }],
        guard: Some(lit(1, 1)),
        body: lit(2, 2),
    };
    assert_eq!(two.trans(&t, &mut c), unsupported(Construct::ArmPatterns));
    let none = Arm { pats: vec![], guard: None, body: lit(2, 2) };
    assert_eq!(none.trans(&t, &mut c), unsupported(Construct::ArmPatterns));
    let one = Arm { pats: vec![Pat { id: 6, kind: PatKind::Wild }], guard: None, body: lit(2, 2) };
    assert_eq!(one.trans(&t, &mut c), ok("{ ([int 32] wild) >> ([int 32] simple_literal 2) }"));
}

#[test]
fn block_with_statements() {
    let mut t = base();
    t.node_types.insert(20, unit());
    t.def_map.insert(6, Def::Local(3));
    t.def_map.insert(8, Def::Local(3));
    let mut c = ctx();
    let block = Block {
        id: 2,
        rules: Unsafety::Normal,
        stmts: vec![
            Stmt::Decl(Decl::Local(Local { id: 3, pat: ident_pat(9, "y"), init: Some(lit(4, 1)) })),
            Stmt::Semi(Expr {
                id: 20,
                kind: ExprKind::Assign(Box::new(path(6, "y")), Box::new(lit(7, 2))),
            }),
        ],
        expr: Some(Box::new(path(8, "y"))),
    };
    let e = Expr { id: 1, kind: ExprKind::Block(Box::new(block)) };
    assert_eq!(
        e.trans(&t, &mut c),
        ok("([int 32] block {\n2 \tlet y [int 32] ([int 32] simple_literal 1);\n \texpr ([unit] assign ([int 32] var y) ([int 32] simple_literal 2));\n\t([int 32] var y)\n}\n)")
    );
}

#[test]
fn unsafe_block_and_block_body() {
    let t = base();
    let mut c = ctx();
    let b = Block { id: 2, rules: Unsafety::Unsafe, stmts: vec![], expr: Some(Box::new(lit(1, 3))) };
    assert_eq!(b.trans(&t, &mut c), ok("unsafe {\n0\t([int 32] simple_literal 3)\n}\n"));
    assert_eq!(
        b.trans_body(&t, &mut c, "block", "_ItemFn"),
        ok("block {\n0\t([int 32] simple_literal 3)\n}\n")
    );
    assert_eq!(
        empty_block(2).trans_body(&t, &mut c, "block", "_method"),
        ok("block {\n0\t([unit] simple_literal _method)\n}\n")
    );
    assert_eq!(Unsafety::Normal.rules(), "block");
    assert_eq!(Unsafety::Unsafe.rules(), "unsafe");
}

#[test]
fn statements() {
    let t = base();
    let mut c = ctx();
    assert_eq!(Stmt::Expr(lit(1, 5)).trans(&t, &mut c), ok("\texpr ([int 32] simple_literal 5);\n"));
    assert_eq!(Stmt::Semi(lit(1, 5)).trans(&t, &mut c), ok("\texpr ([int 32] simple_literal 5);\n"));
    assert_eq!(
        Stmt::Decl(Decl::Item).trans(&t, &mut c),
        ok("\texpr ([unit] simple_literal _DeclItem);\n")
    );
    assert_eq!(Decl::Item.trans(&t, &mut c), ok("expr ([unit] simple_literal _DeclItem)"));
    assert_eq!(Stmt::Mac.trans(&t, &mut c), unsupported(Construct::MacroStmt));
}

#[test]
fn local_bindings() {
    let t = base();
    let mut c = ctx();
    let l = Local { id: 3, pat: ident_pat(9, "y"), init: Some(lit(4, 1)) };
    assert_eq!(l.trans(&t, &mut c), ok("let y [int 32] ([int 32] simple_literal 1)"));
    let uninit = Local { id: 3, pat: ident_pat(9, "y"), init: None };
    assert_eq!(uninit.trans(&t, &mut c), unsupported(Construct::UninitLocal));
    let tuple = Local { id: 3, pat: Pat { id: 9, kind: PatKind::Tup(vec![]) }, init: None };
    assert_eq!(tuple.trans(&t, &mut c), unsupported(Construct::LocalPattern));
    let untyped = Local { id: 77, pat: ident_pat(9, "y"), init: Some(lit(4, 1)) };
    assert_eq!(untyped.trans(&t, &mut c), missing(Table::NodeTypes));
}

#[test]
fn field_access_assignment_address_and_return() {
    let mut t = base();
    t.node_types.insert(20, adt_s());
    t.node_types.insert(21, Ty::Ref(Region::Scope(9), Mutability::Immutable, Box::new(i32t())));
    t.node_types.insert(22, unit());
    t.def_map.insert(20, Def::Local(50));
    t.def_map.insert(2, Def::Local(51));
    let mut c = ctx();
    assert_eq!(
        Expr { id: 1, kind: ExprKind::Field(Box::new(path(20, "s")), "p".to_string()) }
            .trans(&t, &mut c),
        ok("([int 32] field ([adt k_S 0 0] var s) p)")
    );
    assert_eq!(
        Expr { id: 21, kind: ExprKind::AddrOf(Mutability::Immutable, Box::new(path(2, "x"))) }
            .trans(&t, &mut c),
        ok("([ref r_scope_9 [int 32]] addr_of ([int 32] var x))")
    );
    assert_eq!(
        Expr { id: 22, kind: ExprKind::Ret(None) }.trans(&t, &mut c),
        ok("([unit] return ([unit] simple_literal _ExprRet))")
    );
    assert_eq!(
        Expr { id: 22, kind: ExprKind::Ret(Some(Box::new(lit(1, 5)))) }.trans(&t, &mut c),
        ok("([unit] return ([int 32] simple_literal 5))")
    );
    assert_eq!(
        Expr { id: 22, kind: ExprKind::Assign(Box::new(path(2, "x")), Box::new(lit(1, 5))) }
            .trans(&t, &mut c),
        ok("([unit] assign ([int 32] var x) ([int 32] simple_literal 5))")
    );
}

#[test]
fn struct_literals() {
    let mut t = base();
    t.node_types.insert(20, adt_s());
    let mut c = ctx();
    let fields = || {
        vec![
            Field { ident: "p".to_string(), expr: lit(1, 5) },
            Field { ident: "q".to_string(), expr: lit(2, 6) },
        ]
    };
    assert_eq!(
        Expr { id: 20, kind: ExprKind::Struct(fields(), None) }.trans(&t, &mut c),
        ok("([adt k_S 0 0] struct_literal 2 p ([int 32] simple_literal 5) q ([int 32] simple_literal 6))")
    );
    assert_eq!(
        Expr { id: 20, kind: ExprKind::Struct(fields(), Some(Box::new(lit(3, 0)))) }
            .trans(&t, &mut c),
        unsupported(Construct::StructBase)
    );
    assert_eq!(
        Field { ident: "p".to_string(), expr: lit(1, 5) }.trans(&t, &mut c),
        ok("p ([int 32] simple_literal 5)")
    );
}

#[test]
fn expressions_outside_the_subset_fail() {
    let t = base();
    let mut c = ctx();
    assert_eq!(
        Expr { id: 1, kind: ExprKind::Index(Box::new(lit(2, 0)), Box::new(lit(3, 0))) }
            .trans(&t, &mut c),
        unsupported(Construct::Index)
    );
    assert_eq!(Expr { id: 1, kind: ExprKind::Range }.trans(&t, &mut c), unsupported(Construct::Range));
    assert_eq!(Expr { id: 1, kind: ExprKind::Other }.trans(&t, &mut c), unsupported(Construct::ExprKind));
    assert_eq!(
        Expr { id: 1, kind: ExprKind::Tup(vec![lit(2, 0), Expr { id: 3, kind: ExprKind::Range }]) }
            .trans(&t, &mut c),
        unsupported(Construct::Range)
    );
}

#[test]
fn path_is_variant_then_local_then_struct_then_constant() {
    let mut t = base();
    t.node_types.insert(20, adt_e());
    t.node_types.insert(21, adt_s());
    t.def_map.insert(20, Def::Variant(def(0, 110), def(0, 111)));
    t.def_map.insert(1, Def::Local(50));
    t.def_map.insert(21, Def::Struct(def(0, 100)));
    t.def_map.insert(2, Def::Other(def(0, 120)));
    t.def_map.insert(3, Def::Variant(def(0, 110), def(0, 112)));
    t.def_map.insert(4, Def::Other(def(0, 999)));
    let mut c = ctx();
    assert_eq!(path(20, "B").trans(&t, &mut c), ok("([adt k_E 0 0] enum_literal k_E_B 1 0)"));
    assert_eq!(path(1, "x").trans(&t, &mut c), ok("([int 32] var x)"));
    assert_eq!(path(21, "S").trans(&t, &mut c), ok("([adt k_S 0 0] struct_literal 0)"));
    assert_eq!(path(2, "C").trans(&t, &mut c), ok("([int 32] const k_C)"));
    assert_eq!(path(3, "A").trans(&t, &mut c), missing(Table::Discriminants));
    assert_eq!(path(4, "D").trans(&t, &mut c), Err(TransError::UnresolvedPath(def(0, 999))));
    assert_eq!(path(5, "z").trans(&t, &mut c), missing(Table::Resolutions));
}

#[test]
fn variant_lookup() {
    let mut t = base();
    t.def_map.insert(20, Def::Variant(def(0, 110), def(0, 111)));
    t.def_map.insert(1, Def::Local(50));
    assert_eq!(find_variant(&t, "k", 20), Ok(Some(("k_E_B".to_string(), 1))));
    assert_eq!(find_variant(&t, "k", 1), Ok(None));
    assert_eq!(find_variant(&t, "k", 99), Ok(None));
}

#[test]
fn primitive_operators() {
    let mut t = base();
    t.node_types.insert(20, ref_to(i32t()));
    t.node_types.insert(21, Ty::Bool);
    t.def_map.insert(20, Def::Local(50));
    let mut c = ctx();
    assert_eq!(
        Expr { id: 1, kind: ExprKind::Binary(BinOp::Add, Box::new(lit(2, 1)), Box::new(lit(3, 2))) }
            .trans(&t, &mut c),
        ok("([int 32] binop BiAdd ([int 32] simple_literal 1) ([int 32] simple_literal 2))")
    );
    assert_eq!(
        Expr { id: 21, kind: ExprKind::Binary(BinOp::Lt, Box::new(lit(2, 1)), Box::new(lit(3, 2))) }
            .trans(&t, &mut c),
        ok("([bool] binop BiLt ([int 32] simple_literal 1) ([int 32] simple_literal 2))")
    );
    assert_eq!(
        Expr { id: 1, kind: ExprKind::Unary(UnOp::Neg, Box::new(lit(2, 5))) }.trans(&t, &mut c),
        ok("([int 32] unop UnNeg ([int 32] simple_literal 5))")
    );
    assert_eq!(
        Expr { id: 1, kind: ExprKind::Unary(UnOp::Deref, Box::new(path(20, "p"))) }.trans(&t, &mut c),
        ok("([int 32] deref ([ref r_static [int 32]] var p))")
    );
    assert_eq!(BinOp::BitXor.token(), "BiBitXor");
    assert_eq!(BinOp::Shr.token(), "BiShr");
    assert_eq!(UnOp::Not.token(), "UnNot");
    assert_eq!(UnOp::Uniq.token(), "UnUniq");
}

#[test]
fn overloaded_operator_is_a_call_with_explicit_self() {
    let mut t = base();
    t.method_map.insert(
        1,
        MethodCallee { origin: MethodOrigin::Static(def(2, 30)), substs: substs(vec![], vec![i32t()]) },
    );
    t.method_map.insert(
        4,
        MethodCallee { origin: MethodOrigin::Static(def(2, 30)), substs: no_substs() },
    );
    let mut c = ctx();
    assert_eq!(
        Expr { id: 1, kind: ExprKind::Binary(BinOp::Add, Box::new(lit(2, 1)), Box::new(lit(3, 2))) }
            .trans(&t, &mut c),
        ok("([int 32] call core_ops_Add_add 0 1 [int 32] 2 ([int 32] simple_literal 1) ([int 32] simple_literal 2))")
    );
    assert_eq!(
        Expr { id: 4, kind: ExprKind::Unary(UnOp::Neg, Box::new(lit(2, 1))) }.trans(&t, &mut c),
        ok("([int 32] call core_ops_Add_add 0 0 1 ([int 32] simple_literal 1))")
    );
    assert_eq!(c.observed_abstract_fns.len(), 0);
}

#[test]
fn call_of_a_definite_function() {
    let mut t = base();
    t.def_map.insert(20, Def::Other(def(0, 130)));
    t.def_map.insert(21, Def::Other(def(0, 130)));
    t.item_substs.insert(21, substs(vec![], vec![Ty::Bool]));
    let mut c = ctx();
    assert_eq!(
        Expr { id: 1, kind: ExprKind::Call(Box::new(path(20, "f")), vec![lit(2, 5)]) }
            .trans(&t, &mut c),
        ok("([int 32] call k_f 0 0 1 ([int 32] simple_literal 5))")
    );
    assert_eq!(
        Expr { id: 1, kind: ExprKind::Call(Box::new(path(21, "f")), vec![]) }.trans(&t, &mut c),
        ok("([int 32] call k_f 0 1 [bool] 0)")
    );
    assert_eq!(trans_call_head(&t, &mut c, 20), ok("call k_f 0 0"));
    assert_eq!(trans_call_head(&t, &mut c, 99), missing(Table::Resolutions));
    assert_eq!(c.observed_abstract_fns.len(), 0);
}

#[test]
fn call_of_a_variant_is_a_constructor() {
    let mut t = base();
    t.node_types.insert(20, adt_e());
    t.def_map.insert(21, Def::Variant(def(0, 110), def(0, 111)));
    let mut c = ctx();
    assert_eq!(
        Expr { id: 20, kind: ExprKind::Call(Box::new(path(21, "B")), vec![lit(2, 5)]) }
            .trans(&t, &mut c),
        ok("([adt k_E 0 0] enum_literal k_E_B 1 1 ([int 32] simple_literal 5))")
    );
}

#[test]
fn call_of_a_trait_method_by_path_is_abstract() {
    let mut t = base();
    t.def_map.insert(20, Def::StaticMethod(def(0, 141), true));
    t.def_map.insert(21, Def::StaticMethod(def(0, 130), false));
    let mut c = ctx();
    assert_eq!(
        Expr { id: 1, kind: ExprKind::Call(Box::new(path(20, "get")), vec![]) }.trans(&t, &mut c),
        ok("([int 32] call k_Tr_get 0 0 0)")
    );
    assert_eq!(names_of(&c.observed_abstract_fns), strings(&["k_Tr_get"]));
    assert_eq!(c.observed_abstract_fns.get(0).def, def(0, 141));
    assert_eq!(
        Expr { id: 1, kind: ExprKind::Call(Box::new(path(21, "f")), vec![]) }.trans(&t, &mut c),
        ok("([int 32] call k_f 0 0 0)")
    );
    assert_eq!(names_of(&c.observed_abstract_fns), strings(&["k_Tr_get"]));
}

fn through_bound(n: usize) -> MethodCallee {
    MethodCallee {
        origin: MethodOrigin::TypeParam(def(0, 140), n),
        substs: substs(vec![], vec![Ty::Param(ParamSpace::Function, 0)]),
    }
}

#[test]
fn method_call_through_a_bound_is_abstract() {
    let mut t = base();
    t.node_types.insert(20, Ty::Param(ParamSpace::Function, 0));
    t.def_map.insert(20, Def::Local(50));
    t.method_map.insert(1, through_bound(0));
    let mut c = ctx();
    assert_eq!(
        Expr { id: 1, kind: ExprKind::MethodCall(0, vec![path(20, "x")]) }.trans(&t, &mut c),
        ok("([int 32] call k_Tr_get 0 1 [var f_0] 1 ([var f_0] var x))")
    );
    assert_eq!(names_of(&c.observed_abstract_fns), strings(&["k_Tr_get"]));
    assert_eq!(c.observed_abstract_fns.get(0).def, def(0, 141));
}

#[test]
fn method_call_on_a_definite_implementation_is_concrete() {
    let mut t = base();
    t.method_map.insert(
        1,
        MethodCallee { origin: MethodOrigin::Static(def(0, 130)), substs: no_substs() },
    );
    let mut c = ctx();
    assert_eq!(
        Expr { id: 1, kind: ExprKind::MethodCall(0, vec![lit(2, 1), lit(3, 2)]) }.trans(&t, &mut c),
        ok("([int 32] call k_f 0 0 2 ([int 32] simple_literal 1) ([int 32] simple_literal 2))")
    );
    assert_eq!(c.observed_abstract_fns.len(), 0);
    assert_eq!(
        trans_method_call(
            &t,
            &mut c,
            &MethodCallee { origin: MethodOrigin::Static(def(0, 130)), substs: no_substs() },
            strings(&["a", "b"])
        ),
        ok("call k_f 0 0 2 a b")
    );
}

#[test]
fn method_calls_that_fail() {
    let mut t = base();
    t.method_map.insert(1, through_bound(1));
    t.method_map.insert(2, through_bound(2));
    t.method_map.insert(3, MethodCallee { origin: MethodOrigin::Other, substs: no_substs() });
    t.method_map.insert(4, through_bound(0));
    t.method_map.insert(
        5,
        MethodCallee { origin: MethodOrigin::TypeParam(def(0, 999), 0), substs: no_substs() },
    );
    let mut c = ctx();
    let call = |id: u32, n: usize| Expr { id, kind: ExprKind::MethodCall(n, vec![]) };
    assert_eq!(call(1, 0).trans(&t, &mut c), unsupported(Construct::AssocTypeAsMethod));
    assert_eq!(call(2, 0).trans(&t, &mut c), missing(Table::TraitItems));
    assert_eq!(call(3, 0).trans(&t, &mut c), unsupported(Construct::MethodOrigin));
    assert_eq!(call(4, 1).trans(&t, &mut c), unsupported(Construct::MethodTypeArgs));
    assert_eq!(call(5, 0).trans(&t, &mut c), missing(Table::TraitItems));
    assert_eq!(call(6, 0).trans(&t, &mut c), missing(Table::MethodCalls));
    assert_eq!(c.observed_abstract_fns.len(), 0);
}

// Adjustments.

#[test]
fn implicit_dereferences_wrap_innermost_first() {
    let mut t = base();
    t.node_types.insert(20, ref_to(ref_to(i32t())));
    t.def_map.insert(20, Def::Local(50));
    t.adjustments.insert(20, Adjustment::DerefRef(2, None));
    let mut c = ctx();
    assert_eq!(
        path(20, "p").trans(&t, &mut c),
        ok("([int 32] deref ([ref r_static [int 32]] deref ([ref r_static [ref r_static [int 32]]] var p)))")
    );
}

#[test]
fn implicit_reborrow_takes_the_address() {
    let mut t = base();
    t.def_map.insert(1, Def::Local(50));
    t.def_map.insert(2, Def::Local(50));
    t.def_map.insert(3, Def::Local(50));
    t.adjustments.insert(
        1,
        Adjustment::DerefRef(0, Some(AutoRef::Ptr(Region::Scope(4), Mutability::Mutable, false))),
    );
    t.adjustments.insert(2, Adjustment::DerefRef(0, Some(AutoRef::Unsafe(Mutability::Immutable, false))));
    t.adjustments.insert(3, Adjustment::DerefRef(0, None));
    let mut c = ctx();
    assert_eq!(
        path(1, "x").trans(&t, &mut c),
        ok("([ref_mut r_scope_4 [int 32]] addr_of ([int 32] var x))")
    );
    assert_eq!(path(2, "x").trans(&t, &mut c), ok("([ptr [int 32]] addr_of ([int 32] var x))"));
    assert_eq!(path(3, "x").trans(&t, &mut c), ok("([int 32] var x)"));
}

#[test]
fn dereference_then_reborrow() {
    let mut t = base();
    t.node_types.insert(20, ref_to(i32t()));
    t.def_map.insert(20, Def::Local(50));
    t.adjustments.insert(
        20,
        Adjustment::DerefRef(1, Some(AutoRef::Ptr(Region::Scope(4), Mutability::Immutable, false))),
    );
    let mut c = ctx();
    assert_eq!(
        path(20, "p").trans(&t, &mut c),
        ok("([ref r_scope_4 [int 32]] addr_of ([int 32] deref ([ref r_static [int 32]] var p)))")
    );
}

#[test]
fn dereference_of_a_reborrow_has_the_type_of_the_value() {
    let t = base();
    let mut c = ctx();
    let value_ty = adt_s();
    let own = value_ty.trans(&t, &mut c).unwrap();
    let borrowed = autoref(
        &t,
        &mut c,
        &Some(AutoRef::Ptr(Region::Static, Mutability::Mutable, false)),
        "X".to_string(),
        &value_ty,
    )
    .unwrap();
    assert_eq!(borrowed, "([ref_mut r_static [adt k_S 0 0]] addr_of X)");
    let ref_ty = Ty::Ref(Region::Static, Mutability::Mutable, Box::new(adt_s()));
    let (text, ty) = deref_once(&t, &mut c, borrowed, &ref_ty).unwrap();
    assert_eq!(ty, &value_ty);
    assert_eq!(text, format!("({} deref ([ref_mut r_static [adt k_S 0 0]] addr_of X))", own));
    let ptr_ty = Ty::RawPtr(Mutability::Immutable, Box::new(adt_s()));
    let (_, ty) = deref_once(&t, &mut c, "Y".to_string(), &ptr_ty).unwrap();
    assert_eq!(ty, &value_ty);
}

#[test]
fn dereference_counts() {
    let t = base();
    let mut c = ctx();
    let ty = ref_to(ref_to(Ty::Bool));
    let (text, end) = deref_times(&t, &mut c, "P".to_string(), &ty, 0).unwrap();
    assert_eq!(text, "P");
    assert_eq!(end, &ty);
    let (text, end) = deref_times(&t, &mut c, "P".to_string(), &ty, 2).unwrap();
    assert_eq!(text, "([bool] deref ([ref r_static [bool]] deref P))");
    assert_eq!(end, &Ty::Bool);
    assert_eq!(
        deref_times(&t, &mut c, "P".to_string(), &ty, 3),
        Err(TransError::Unsupported(Construct::DerefNonPointer))
    );
}

#[test]
fn dereferences_stop_at_the_first_failure() {
    let t = base();
    let mut c = ctx();
    assert_eq!(
        deref_times(&t, &mut c, "P".to_string(), &i32t(), usize::MAX),
        Err(TransError::Unsupported(Construct::DerefNonPointer))
    );
    let projection = Ty::Projection(def(0, 140), no_substs(), "Out".to_string());
    let ty = ref_to(ref_to(projection));
    assert_eq!(
        deref_times(&t, &mut c, "P".to_string(), &ty, usize::MAX),
        Err(TransError::Unsupported(Construct::DerefNonPointer))
    );
    assert_eq!(names_of(&c.observed_abstract_types), strings(&["k_Tr_Out"]));
}

#[test]
fn coercions_outside_the_subset_fail() {
    let t = base();
    let mut c = ctx();
    let adjust = |c: &mut TransCtxt, adj: Adjustment| adjust_expr(&t, c, &adj, &i32t(), "X".to_string());
    assert_eq!(adjust(&mut c, Adjustment::ReifyFnPointer), unsupported(Construct::ReifyFnPointer));
    assert_eq!(
        adjust(&mut c, Adjustment::DerefRef(1, None)),
        unsupported(Construct::DerefNonPointer)
    );
    assert_eq!(
        adjust(&mut c, Adjustment::DerefRef(0, Some(AutoRef::Other))),
        unsupported(Construct::AutoRefKind)
    );
    assert_eq!(
        adjust(
            &mut c,
            Adjustment::DerefRef(0, Some(AutoRef::Ptr(Region::Static, Mutability::Mutable, true)))
        ),
        unsupported(Construct::NestedAutoRef)
    );
    assert_eq!(
        adjust(&mut c, Adjustment::DerefRef(0, Some(AutoRef::Unsafe(Mutability::Mutable, true)))),
        unsupported(Construct::NestedAutoRef)
    );
    assert_eq!(adjust(&mut c, Adjustment::DerefRef(0, None)), ok("X"));
}

// Patterns.

#[test]
fn patterns() {
    let mut t = base();
    t.node_types.insert(20, adt_e());
    t.node_types.insert(21, Ty::Tuple(vec![i32t(), Ty::Bool]));
    t.node_types.insert(22, Ty::Bool);
    t.def_map.insert(2, Def::Local(2));
    t.def_map.insert(3, Def::Other(def(0, 120)));
    t.def_map.insert(20, Def::Variant(def(0, 110), def(0, 111)));
    let mut c = ctx();
    assert_eq!(Pat { id: 1, kind: PatKind::Wild }.trans(&t, &mut c), ok("([int 32] wild)"));
    assert_eq!(ident_pat(1, "x").trans(&t, &mut c), ok("([int 32] var x)"));
    assert_eq!(ident_pat(2, "x").trans(&t, &mut c), ok("([int 32] var x)"));
    assert_eq!(ident_pat(3, "C").trans(&t, &mut c), ok("([int 32] const k_C)"));
    assert_eq!(ident_pat(20, "B").trans(&t, &mut c), ok("([adt k_E 0 0] enum k_E_B 1 0)"));
    assert_eq!(
        Pat { id: 20, kind: PatKind::Enum(Some(vec![ident_pat(1, "x")])) }.trans(&t, &mut c),
        ok("([adt k_E 0 0] enum k_E_B 1 1 ([int 32] var x))")
    );
    assert_eq!(
        Pat { id: 21, kind: PatKind::Tup(vec![ident_pat(1, "a"), Pat { id: 22, kind: PatKind::Wild }]) }
            .trans(&t, &mut c),
        ok("([tuple 2 [int 32] [bool]] tuple 2 ([int 32] var a) ([bool] wild))")
    );
    assert_eq!(
        Pat { id: 77, kind: PatKind::Lit(Box::new(lit(1, 1))) }.trans(&t, &mut c),
        ok("([int 32] simple_literal 1)")
    );
}

#[test]
fn patterns_that_fail() {
    let mut t = base();
    t.def_map.insert(2, Def::Local(2));
    let mut c = ctx();
    assert_eq!(Pat { id: 1, kind: PatKind::Other }.trans(&t, &mut c), unsupported(Construct::PatKind));
    assert_eq!(
        Pat { id: 1, kind: PatKind::Enum(None) }.trans(&t, &mut c),
        unsupported(Construct::PatKind)
    );
    assert_eq!(
        Pat { id: 2, kind: PatKind::Enum(Some(vec![])) }.trans(&t, &mut c),
        unsupported(Construct::PatNotVariant)
    );
    assert_eq!(
        Pat {
            id: 1,
            kind: PatKind::Ident("x".to_string(), Some(Box::new(Pat { id: 3, kind: PatKind::Wild }))),
        }
        .trans(&t, &mut c),
        unsupported(Construct::PatKind)
    );
    assert_eq!(Pat { id: 77, kind: PatKind::Wild }.trans(&t, &mut c), missing(Table::NodeTypes));
}

#[test]
fn construct_outside_the_subset_fails_at_any_depth() {
    let mut t = base();
    t.node_types.insert(20, Ty::Bool);
    t.def_map.insert(30, Def::Other(def(0, 130)));
    let index = || Expr { id: 9, kind: ExprKind::Index(Box::new(lit(2, 0)), Box::new(lit(3, 0))) };
    let in_block = |e: Expr| Expr {
        id: 1,
        kind: ExprKind::Block(Box::new(Block {
            id: 2,
            rules: Unsafety::Normal,
            stmts: vec![Stmt::Semi(lit(3, 1)), Stmt::Semi(e)],
            expr: Some(Box::new(lit(4, 2))),
        })),
    };
    let in_if = |e: Expr| Expr {
        id: 5,
        kind: ExprKind::If(
            Box::new(Expr { id: 20, kind: ExprKind::Lit(Lit::Bool(true)) }),
            Box::new(Block { id: 6, rules: Unsafety::Normal, stmts: vec![], expr: Some(Box::new(e)) }),
            Some(Box::new(lit(7, 0))),
        ),
    };
    let in_call = |e: Expr| Expr {
        id: 8,
        kind: ExprKind::Call(Box::new(path(30, "f")), vec![lit(1, 1), e]),
    };
    let in_match = |e: Expr| Expr {
        id: 1,
        kind: ExprKind::Match(
            Box::new(lit(2, 0)),
            vec![Arm { pats: vec![Pat { id: 3, kind: PatKind::Wild }], guard: None, body: e }],
        ),
    };
    let mut c = ctx();
    assert_eq!(in_block(index()).trans(&t, &mut c), unsupported(Construct::Index));
    assert_eq!(in_if(index()).trans(&t, &mut c), unsupported(Construct::Index));
    assert_eq!(in_call(index()).trans(&t, &mut c), unsupported(Construct::Index));
    assert_eq!(in_match(index()).trans(&t, &mut c), unsupported(Construct::Index));
    assert_eq!(
        in_call(in_block(in_if(in_match(index())))).trans(&t, &mut c),
        unsupported(Construct::Index)
    );
    assert_eq!(
        in_block(Expr { id: 9, kind: ExprKind::Range }).trans(&t, &mut c),
        unsupported(Construct::Range)
    );
    let callee_only = Expr { id: 8, kind: ExprKind::Call(Box::new(Expr { id: 30, kind: ExprKind::Range }), vec![]) };
    assert_eq!(callee_only.trans(&t, &mut c), ok("([int 32] call k_f 0 0 0)"));
}
