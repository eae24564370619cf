use ir_trans::ast::{
    Arg, BinOp, Block, ExplicitSelf, Expr, ExprKind, FnDecl, ForeignItem, FunctionRetTy, Generics,
    Impl, ImplItem, Item, ItemKind, Lifetime, Lit, Method, MethodKind, Pat, PatKind,
    PathParameters, SourceTy, StructField, TraitRef, Unsafety, Variant, VariantKind,
};
use ir_trans::context::TransCtxt;
use ir_trans::decls::{print_abstract_fn_decls, print_abstract_type_decls, trans_param_defs};
use ir_trans::defs::{DefId, ParamSpace};
use ir_trans::errors::{Construct, Table, TransError};
use ir_trans::item_enc::{trans_impl_clause, trans_method, visit_item};
use ir_trans::process::{process, Program};
use ir_trans::tables::{
    Def, DefRegion, DtorKind, FnOutput, MethodCallee, MethodOrigin, ParamDef, Signature, Tables,
    TraitItemId, TyGenerics,
};
use ir_trans::types::{IntWidth, Mutability, Region, RegionSubsts, Substs, Ty};

fn def(krate: u32, node: u32) -> DefId {
    DefId { krate, node }
}

fn strings(items: &[&str]) -> Vec<String> {
    items.iter().map(|s| s.to_string()).collect()
}

fn i32t() -> Ty {
    Ty::Int(IntWidth::W32)
}

fn no_substs() -> Substs {
    Substs { regions: RegionSubsts::NonErased(vec![]), types: vec![] }
}

fn lit(id: u32, n: u64) -> Expr {
    Expr { id, kind: ExprKind::Lit(Lit::Int(n)) }
}

fn block(id: u32, expr: Option<Expr>) -> Block {
    Block { id, rules: Unsafety::Normal, stmts: vec![], expr: expr.map(Box::new) }
}

fn run(program: &Program) -> Result<String, TransError> {
    process(program, vec![], "k".to_string())
}

fn ident_pat(id: u32, name: &str) -> Pat {
    Pat { id, kind: PatKind::Ident(name.to_string(), None) }
}

fn path(id: u32, name: &str) -> Expr {
    Expr { id, kind: ExprKind::Path(name.to_string()) }
}

fn no_generics() -> Generics {
    Generics { lifetimes: vec![], ty_params: 0 }
}

#[test]
fn sum_of_two_integers_is_one_fn_block() {
    let mut tables = Tables::new();
    tables.paths.insert(DefId { krate: 0, node: 1 }, vec!["add".to_string()]);
    for id in [3, 5, 6] {
        tables.source_types.insert(id, Ty::Int(IntWidth::W32));
    }
    for id in [8, 9, 10] {
        tables.node_types.insert(id, Ty::Int(IntWidth::W32));
    }
    tables.def_map.insert(9, Def::Local(2));
    tables.def_map.insert(10, Def::Local(4));
    let decl = FnDecl {
        inputs: vec![
            Arg { pat: ident_pat(2, "a"), ty: SourceTy { id: 3 } },
            Arg { pat: ident_pat(4, "b"), ty: SourceTy { id: 5 } },
        ],
        output: FunctionRetTy::Return(SourceTy { id: 6 }),
    };
    let body = Block {
        id: 7,
        rules: Unsafety::Normal,
        stmts: vec![],
        expr: Some(Box::new(Expr {
            id: 8,
            kind: ExprKind::Binary(BinOp::Add, Box::new(path(9, "a")), Box::new(path(10, "b"))),
        })),
    };
    let program = Program {
        items: vec![Item { id: 1, kind: ItemKind::Fn(decl, Unsafety::Normal, no_generics(), body) }],
        tables,
    };
    let out = process(&program, vec![], "test".to_string()).unwrap();
    assert_eq!(
        out,
        "fn test_add 0 0 (args 2 a [int 32] b [int 32]) return [int 32] 0 body [int 32] block {\n0\t([int 32] binop BiAdd ([int 32] var a) ([int 32] var b))\n}\n\n\n"
    );
    assert!(!out.contains("abstract_fn"));
    assert!(!out.contains("abstract_type"));
}

const ADD_TEXT: &str = "fn k_add 0 0 (args 0) return [int 32] 0 body [int 32] block {\n0\t([int 32] simple_literal 1)\n}\n\n\n";

/// A function `name` without parameters, declared at `id`, whose body is
/// the expression `body`; the nodes from `id + 1` on belong to it.
fn simple_fn(tables: &mut Tables, id: u32, name: &str, body: Expr) -> Item {
    tables.paths.insert(def(0, id), strings(&[name]));
    tables.source_types.insert(id + 1, i32t());
    let decl = FnDecl { inputs: vec![], output: FunctionRetTy::Return(SourceTy { id: id + 1 }) };
    Item {
        id,
        kind: ItemKind::Fn(decl, Unsafety::Normal, no_generics(), block(id + 2, Some(body))),
    }
}

fn typed_lit(tables: &mut Tables, id: u32, n: u64) -> Expr {
    tables.node_types.insert(id, i32t());
    lit(id, n)
}

#[test]
fn struct_with_destructor_carries_its_name() {
    let mut tables = Tables::new();
    tables.paths.insert(def(0, 1), strings(&["S"]));
    tables.paths.insert(def(0, 20), strings(&["S.Drop"]));
    tables.dtors.insert(def(0, 1), def(0, 20));
    tables.source_types.insert(
        3,
        Ty::Ref(Region::EarlyBound(2), Mutability::Mutable, Box::new(Ty::Uint(IntWidth::Native))),
    );
    let item = Item {
        id: 1,
        kind: ItemKind::Struct(
            vec![StructField { ident: Some("p".to_string()), ty: SourceTy { id: 3 } }],
            Generics { lifetimes: vec![2], ty_params: 0 },
        ),
    };
    let program = Program { items: vec![item], tables };
    assert_eq!(
        run(&program),
        Ok("struct k_S 1 r_named_0_2 0 1 p [ref_mut r_named_0_2 [uint 32]] 1 k_S__Drop;\n".to_string())
    );
}

#[test]
fn struct_without_destructor_carries_the_none_marker() {
    let mut tables = Tables::new();
    tables.paths.insert(def(0, 1), strings(&["S"]));
    tables.source_types.insert(3, i32t());
    let item = Item {
        id: 1,
        kind: ItemKind::Struct(
            vec![
                StructField { ident: Some("p".to_string()), ty: SourceTy { id: 3 } },
                StructField { ident: Some("q".to_string()), ty: SourceTy { id: 3 } },
            ],
            Generics { lifetimes: vec![], ty_params: 1 },
        ),
    };
    let program = Program { items: vec![item], tables };
    assert_eq!(run(&program), Ok("struct k_S 0 1 t_0 2 p [int 32] q [int 32] 0;\n".to_string()));
}

#[test]
fn struct_with_an_unnamed_field_is_reported() {
    let mut tables = Tables::new();
    tables.paths.insert(def(0, 1), strings(&["S"]));
    tables.source_types.insert(3, i32t());
    let item = Item {
        id: 1,
        kind: ItemKind::Struct(vec![StructField { ident: None, ty: SourceTy { id: 3 } }], no_generics()),
    };
    let program = Program { items: vec![item], tables };
    assert_eq!(run(&program), Ok("# error with k_S: called `Option::unwrap()` on a `None` value\n".to_string()));
}

#[test]
fn enum_lists_its_variants() {
    let mut tables = Tables::new();
    tables.paths.insert(def(0, 1), strings(&["E"]));
    tables.paths.insert(def(0, 2), strings(&["E", "A"]));
    tables.paths.insert(def(0, 3), strings(&["E", "B"]));
    tables.source_types.insert(4, i32t());
    let variants = || {
        vec![
            Variant { id: 2, kind: VariantKind::Tuple(vec![]) },
            Variant { id: 3, kind: VariantKind::Tuple(vec![SourceTy { id: 4 }]) },
        ]
    };
    let program = Program {
        items: vec![Item { id: 1, kind: ItemKind::Enum(variants(), no_generics()) }],
        tables,
    };
    assert_eq!(run(&program), Ok("enum k_E 0 0 2 k_E_A 0 k_E_B 1 [int 32] 0;\n".to_string()));
    let mut tables = Tables::new();
    tables.paths.insert(def(0, 1), strings(&["E"]));
    tables.paths.insert(def(0, 2), strings(&["E", "A"]));
    let program = Program {
        items: vec![Item {
            id: 1,
            kind: ItemKind::Enum(vec![Variant { id: 2, kind: VariantKind::Struct }], no_generics()),
        }],
        tables,
    };
    assert_eq!(run(&program), Ok("# error with k_E: unsupported VariantKind variant\n".to_string()));
}

/// A program with the generic function `g` that calls the method `get`
/// of the trait `Tr` on its parameter, whose type is bounded by `Tr`.
fn generic_caller() -> Program {
    let mut tables = Tables::new();
    tables.paths.insert(def(0, 1), strings(&["g"]));
    tables.paths.insert(def(0, 10), strings(&["Tr"]));
    tables.paths.insert(def(0, 11), strings(&["Tr", "get"]));
    tables.source_types.insert(3, Ty::Param(ParamSpace::Function, 0));
    tables.source_types.insert(4, i32t());
    tables.node_types.insert(6, i32t());
    tables.node_types.insert(7, Ty::Param(ParamSpace::Function, 0));
    tables.def_map.insert(7, Def::Local(2));
    tables.method_map.insert(
        6,
        MethodCallee {
            origin: MethodOrigin::TypeParam(def(0, 10), 0),
            substs: Substs {
                regions: RegionSubsts::NonErased(vec![]),
                types: vec![Ty::Param(ParamSpace::Function, 0)],
            },
        },
    );
    tables.trait_items.insert(def(0, 10), vec![TraitItemId::Method(def(0, 11))]);
    tables.signatures.insert(
        def(0, 11),
        Signature::Method(
            TyGenerics { regions: vec![], types: vec![ParamDef { space: ParamSpace::SelfSpace, index: 0 }] },
            vec![Ty::Param(ParamSpace::SelfSpace, 0)],
            FnOutput::Converging(i32t()),
        ),
    );
    let decl = FnDecl {
        inputs: vec![Arg { pat: ident_pat(2, "x"), ty: SourceTy { id: 3 } }],
        output: FunctionRetTy::Return(SourceTy { id: 4 }),
    };
    let body = block(5, Some(Expr { id: 6, kind: ExprKind::MethodCall(0, vec![path(7, "x")]) }));
    Program {
        items: vec![Item {
            id: 1,
            kind: ItemKind::Fn(decl, Unsafety::Normal, Generics { lifetimes: vec![], ty_params: 1 }, body),
        }],
        tables,
    }
}

#[test]
fn call_through_a_bound_is_declared_once_from_the_trait() {
    let out = run(&generic_caller()).unwrap();
    assert_eq!(
        out,
        "fn k_g 0 1 f_0 (args 1 x [var f_0]) return [int 32] 0 body [int 32] block {\n0\t([int 32] call k_Tr_get 0 1 [var f_0] 1 ([var f_0] var x))\n}\n\n\nabstract_fn k_Tr_get 0 1 s_0 args 1 arg0 [var s_0] return [int 32]\n"
    );
    assert_eq!(out.matches("abstract_fn ").count(), 1);
}

#[test]
fn two_call_sites_of_one_abstract_function_give_one_declaration() {
    let mut program = generic_caller();
    let mut second = generic_caller();
    let mut item = second.items.pop().unwrap();
    item.id = 101;
    program.tables.paths.insert(def(0, 101), strings(&["h"]));
    program.items.push(item);
    let out = run(&program).unwrap();
    assert_eq!(out.matches("call k_Tr_get ").count(), 2);
    assert_eq!(out.matches("abstract_fn ").count(), 1);
    assert!(out.ends_with("\n\n\nabstract_fn k_Tr_get 0 1 s_0 args 1 arg0 [var s_0] return [int 32]\n"));
}

#[test]
fn failing_item_is_replaced_by_one_line() {
    let mut tables = Tables::new();
    let first_body = typed_lit(&mut tables, 13, 1);
    let first = simple_fn(&mut tables, 10, "add", first_body);
    tables.node_types.insert(23, i32t());
    let second = simple_fn(
        &mut tables,
        20,
        "h",
        Expr { id: 23, kind: ExprKind::Index(Box::new(lit(24, 0)), Box::new(lit(25, 0))) },
    );
    let third_body = typed_lit(&mut tables, 33, 1);
    let third = simple_fn(&mut tables, 30, "add", third_body);
    let program = Program { items: vec![first, second, third], tables };
    assert_eq!(
        run(&program),
        Ok(format!("{}# error with k_h: exprindex\n{}", ADD_TEXT, ADD_TEXT))
    );
}

#[test]
fn translation_is_deterministic() {
    let first = run(&generic_caller());
    let second = run(&generic_caller());
    assert!(first.is_ok());
    assert_eq!(first, second);
    let program = generic_caller();
    assert_eq!(run(&program), run(&program));
}

#[test]
fn suppressed_function_is_declared_without_its_body() {
    let mut tables = Tables::new();
    let body = typed_lit(&mut tables, 13, 1);
    let f = simple_fn(&mut tables, 10, "add", body);
    let body = typed_lit(&mut tables, 23, 1);
    let g = simple_fn(&mut tables, 20, "g", body);
    let program = Program { items: vec![f, g], tables };
    let out = process(&program, strings(&["k_g", "other"]), "k".to_string());
    assert_eq!(out, Ok(format!("{}fn k_g 0 0 (args 0) return [int 32] 0\n\n\n", ADD_TEXT)));
    let out = process(&program, strings(&["k_add", "k_g"]), "k".to_string()).unwrap();
    assert_eq!(
        out,
        "fn k_add 0 0 (args 0) return [int 32] 0\n\n\nfn k_g 0 0 (args 0) return [int 32] 0\n\n\n"
    );
    assert!(!out.contains("body"));
    assert!(!out.contains("simple_literal"));
    let out = process(&program, strings(&["add", "g"]), "k".to_string());
    assert_eq!(out, Ok(format!("{}{}", ADD_TEXT, ADD_TEXT.replace("k_add", "k_g"))));
}

#[test]
fn unsafe_function_and_default_return() {
    let mut tables = Tables::new();
    tables.paths.insert(def(0, 1), strings(&["m", "f"]));
    let decl = FnDecl { inputs: vec![], output: FunctionRetTy::DefaultReturn };
    let diverging = FnDecl { inputs: vec![], output: FunctionRetTy::NoReturn };
    tables.paths.insert(def(0, 5), strings(&["m", "d"]));
    let program = Program {
        items: vec![
            Item { id: 1, kind: ItemKind::Fn(decl, Unsafety::Unsafe, no_generics(), block(2, None)) },
            Item {
                id: 5,
                kind: ItemKind::Fn(diverging, Unsafety::Normal, no_generics(), block(6, None)),
            },
        ],
        tables,
    };
    assert_eq!(
        run(&program),
        Ok("fn k_m_f 0 0 (args 0) return [unit] 0 body [unit] unsafe {\n0\t([unit] simple_literal _ItemFn)\n}\n\n\nfn k_m_d 0 0 (args 0) return bottom 0 body bottom block {\n0\t([unit] simple_literal _ItemFn)\n}\n\n\n".to_string())
    );
}

#[test]
fn parameter_must_be_an_identifier() {
    let mut tables = Tables::new();
    tables.paths.insert(def(0, 1), strings(&["f"]));
    tables.source_types.insert(3, i32t());
    let decl = FnDecl {
        inputs: vec![Arg { pat: Pat { id: 2, kind: PatKind::Wild }, ty: SourceTy { id: 3 } }],
        output: FunctionRetTy::DefaultReturn,
    };
    let program = Program {
        items: vec![Item { id: 1, kind: ItemKind::Fn(decl, Unsafety::Normal, no_generics(), block(4, None)) }],
        tables,
    };
    assert_eq!(run(&program), Ok("# error with k_f: unsupported Pat_ variant in Arg\n".to_string()));
}

#[test]
fn constant_and_other_items() {
    let mut tables = Tables::new();
    tables.paths.insert(def(0, 1), strings(&["C"]));
    tables.paths.insert(def(0, 5), strings(&["m"]));
    tables.source_types.insert(2, i32t());
    let value = typed_lit(&mut tables, 3, 5);
    let program = Program {
        items: vec![
            Item { id: 1, kind: ItemKind::Const(SourceTy { id: 2 }, value) },
            Item { id: 5, kind: ItemKind::Other },
        ],
        tables,
    };
    assert_eq!(run(&program), Ok("const k_C [int 32] ([int 32] simple_literal 5)\n\n".to_string()));
}

#[test]
fn item_without_a_path_ends_the_run() {
    let mut tables = Tables::new();
    let body = typed_lit(&mut tables, 13, 1);
    let f = simple_fn(&mut tables, 10, "add", body);
    let program = Program { items: vec![f, Item { id: 50, kind: ItemKind::Other }], tables };
    assert_eq!(run(&program), Err(TransError::UnresolvedPath(def(0, 50))));
}

#[test]
fn unresolved_path_inside_an_item_ends_the_run() {
    let mut tables = Tables::new();
    tables.node_types.insert(13, Ty::Adt(def(0, 99), no_substs()));
    let f = simple_fn(&mut tables, 10, "add", lit(13, 1));
    let program = Program { items: vec![f], tables };
    assert_eq!(run(&program), Err(TransError::UnresolvedPath(def(0, 99))));
}

#[test]
fn empty_program_has_empty_output() {
    let program = Program { items: vec![], tables: Tables::new() };
    assert_eq!(run(&program), Ok(String::new()));
}

/// An implementation of the trait `Tr` for the struct `S` with the given
/// members; the trait reference is the node 30 and the self type the
/// node 31.
fn impl_of_tr(tables: &mut Tables, items: Vec<ImplItem>) -> Impl {
    tables.paths.insert(def(0, 1), strings(&["S"]));
    tables.paths.insert(def(0, 10), strings(&["Tr"]));
    tables.def_map.insert(30, Def::Other(def(0, 10)));
    tables.source_types.insert(31, Ty::Adt(def(0, 1), no_substs()));
    Impl {
        generics: no_generics(),
        trait_ref: Some(TraitRef { ref_id: 30, parameters: PathParameters::AngleBracketed(vec![], vec![]) }),
        self_ty: SourceTy { id: 31 },
        items,
    }
}

fn get_method(tables: &mut Tables, exp_self: ExplicitSelf) -> Method {
    tables.paths.insert(def(0, 32), strings(&["S.Tr", "get"]));
    tables.source_types.insert(34, Ty::Ref(Region::Static, Mutability::Immutable, Box::new(i32t())));
    tables.source_types.insert(35, i32t());
    let value = typed_lit(tables, 37, 1);
    Method {
        id: 32,
        kind: MethodKind::Decl(
            "get".to_string(),
            no_generics(),
            exp_self,
            Unsafety::Normal,
            FnDecl {
                inputs: vec![Arg { pat: ident_pat(33, "self"), ty: SourceTy { id: 34 } }],
                output: FunctionRetTy::Return(SourceTy { id: 35 }),
            },
            block(36, Some(value)),
        ),
    }
}

const GET_TEXT: &str = "fn k_S__Tr_get 0 0 (args 1 self [ref r_anon_0 [adt k_S 0 0]]) return [int 32] 1 k_Tr_get 0 1 [adt k_S 0 0] body [int 32] block {\n0\t([int 32] simple_literal 1)\n}\n\n";

#[test]
fn method_of_a_trait_implementation() {
    let mut tables = Tables::new();
    let m = get_method(&mut tables, ExplicitSelf::Region(None, Mutability::Immutable, "self".to_string()));
    let imp = impl_of_tr(&mut tables, vec![]);
    let mut ctx = TransCtxt::new("k".to_string());
    assert_eq!(trans_method(&tables, &mut ctx, &imp, &m), Ok(GET_TEXT.to_string()));
}

#[test]
fn receiver_becomes_an_ordinary_parameter() {
    let mut tables = Tables::new();
    tables.named_regions.insert(60, DefRegion::EarlyBound(61));
    let mut imp = impl_of_tr(&mut tables, vec![]);
    imp.trait_ref = None;
    let mut ctx = TransCtxt::new("k".to_string());
    let by_value = get_method(&mut tables, ExplicitSelf::Value("self".to_string()));
    assert_eq!(
        trans_method(&tables, &mut ctx, &imp, &by_value),
        Ok("fn k_S__Tr_get 0 0 (args 1 self [adt k_S 0 0]) return [int 32] 0 body [int 32] block {\n0\t([int 32] simple_literal 1)\n}\n\n".to_string())
    );
    let by_named_ref = get_method(
        &mut tables,
        ExplicitSelf::Region(Some(Lifetime { id: 60 }), Mutability::Mutable, "self".to_string()),
    );
    assert_eq!(
        trans_method(&tables, &mut ctx, &imp, &by_named_ref),
        Ok("fn k_S__Tr_get 0 0 (args 1 self [ref_mut r_named_0_61 [adt k_S 0 0]]) return [int 32] 0 body [int 32] block {\n0\t([int 32] simple_literal 1)\n}\n\n".to_string())
    );
    let explicit = get_method(&mut tables, ExplicitSelf::Explicit(SourceTy { id: 34 }, "this".to_string()));
    assert_eq!(
        trans_method(&tables, &mut ctx, &imp, &explicit),
        Ok("fn k_S__Tr_get 0 0 (args 1 this [adt k_S 0 0]) return [int 32] 0 body [int 32] block {\n0\t([int 32] simple_literal 1)\n}\n\n".to_string())
    );
    let without = get_method(&mut tables, ExplicitSelf::Static);
    assert_eq!(
        trans_method(&tables, &mut ctx, &imp, &without),
        Ok("fn k_S__Tr_get 0 0 (args 1 self [ref r_static [int 32]]) return [int 32] 0 body [int 32] block {\n0\t([int 32] simple_literal 1)\n}\n\n".to_string())
    );
}

#[test]
fn methods_that_fail() {
    let mut tables = Tables::new();
    tables.paths.insert(def(0, 32), strings(&["S.Tr", "get"]));
    let imp = impl_of_tr(&mut tables, vec![]);
    let mut ctx = TransCtxt::new("k".to_string());
    assert_eq!(
        trans_method(&tables, &mut ctx, &imp, &Method { id: 32, kind: MethodKind::Mac }),
        Err(TransError::Unsupported(Construct::MacroMethod))
    );
    let no_param = Method {
        id: 32,
        kind: MethodKind::Decl(
            "get".to_string(),
            no_generics(),
            ExplicitSelf::Value("self".to_string()),
            Unsafety::Normal,
            FnDecl { inputs: vec![], output: FunctionRetTy::DefaultReturn },
            block(36, None),
        ),
    };
    assert_eq!(
        trans_method(&tables, &mut ctx, &imp, &no_param),
        Err(TransError::Unsupported(Construct::ReceiverWithoutParam))
    );
    assert_eq!(
        trans_method(&tables, &mut ctx, &imp, &Method { id: 77, kind: MethodKind::Mac }),
        Err(TransError::UnresolvedPath(def(0, 77)))
    );
}

#[test]
fn member_generics_follow_implementation_generics() {
    let mut tables = Tables::new();
    let mut imp = impl_of_tr(&mut tables, vec![]);
    imp.trait_ref = None;
    imp.generics = Generics { lifetimes: vec![70], ty_params: 2 };
    tables.paths.insert(def(0, 32), strings(&["S", "f"]));
    let m = Method {
        id: 32,
        kind: MethodKind::Decl(
            "f".to_string(),
            Generics { lifetimes: vec![71, 72], ty_params: 1 },
            ExplicitSelf::Static,
            Unsafety::Unsafe,
            FnDecl { inputs: vec![], output: FunctionRetTy::DefaultReturn },
            block(36, None),
        ),
    };
    let mut ctx = TransCtxt::new("k".to_string());
    assert_eq!(
        trans_method(&tables, &mut ctx, &imp, &m),
        Ok("fn k_S_f 3 r_named_0_70 r_named_0_71 r_named_0_72 3 t_0 t_1 f_0 (args 0) return [unit] 0 body [unit] unsafe {\n0\t([unit] simple_literal _method)\n}\n\n".to_string())
    );
}

#[test]
fn implementation_clause_lists_trait_arguments_then_self() {
    let mut tables = Tables::new();
    tables.paths.insert(def(0, 10), strings(&["Tr"]));
    tables.def_map.insert(30, Def::Other(def(0, 10)));
    tables.named_regions.insert(40, DefRegion::Static);
    tables.source_types.insert(41, Ty::Bool);
    let tr = TraitRef {
        ref_id: 30,
        parameters: PathParameters::AngleBracketed(vec![Lifetime { id: 40 }], vec![SourceTy { id: 41 }]),
    };
    let mut ctx = TransCtxt::new("k".to_string());
    assert_eq!(
        trans_impl_clause(&tables, &mut ctx, &tr, &"get".to_string(), "[str]".to_string()),
        Ok("k_Tr_get 1 r_static 2 [bool] [str]".to_string())
    );
    let parenthesized = TraitRef { ref_id: 30, parameters: PathParameters::Parenthesized };
    assert_eq!(
        trans_impl_clause(&tables, &mut ctx, &parenthesized, &"get".to_string(), "[str]".to_string()),
        Err(TransError::Unsupported(Construct::ParenthesizedParams))
    );
    let unresolved = TraitRef { ref_id: 99, parameters: PathParameters::AngleBracketed(vec![], vec![]) };
    assert_eq!(
        trans_impl_clause(&tables, &mut ctx, &unresolved, &"get".to_string(), "[str]".to_string()),
        Err(TransError::Missing(Table::Resolutions))
    );
}

#[test]
fn members_of_an_implementation_fail_one_by_one() {
    let mut tables = Tables::new();
    let m = get_method(&mut tables, ExplicitSelf::Region(None, Mutability::Immutable, "self".to_string()));
    tables.paths.insert(def(0, 50), strings(&["S.Tr", "bad"]));
    tables.paths.insert(def(0, 51), strings(&["S.Tr", "Out"]));
    tables.paths.insert(def(0, 40), strings(&["S.Tr"]));
    tables.source_types.insert(52, Ty::Bool);
    let imp = impl_of_tr(
        &mut tables,
        vec![
            ImplItem::Method(Method { id: 50, kind: MethodKind::Mac }),
            ImplItem::Method(m),
            ImplItem::Type(51, "Out".to_string(), SourceTy { id: 52 }),
        ],
    );
    let program = Program { items: vec![Item { id: 40, kind: ItemKind::Impl(imp) }], tables };
    assert_eq!(
        run(&program),
        Ok(format!(
            "# error with k_S__Tr_bad: unexpected MethMac\n{}\nassociated_type 0 0 k_Tr_Out 0 1 [adt k_S 0 0] [bool]\n\n",
            GET_TEXT
        ))
    );
}

#[test]
fn associated_type_needs_a_trait() {
    let mut tables = Tables::new();
    tables.paths.insert(def(0, 51), strings(&["S", "Out"]));
    tables.paths.insert(def(0, 40), strings(&["S"]));
    tables.source_types.insert(52, Ty::Bool);
    let mut imp = impl_of_tr(&mut tables, vec![ImplItem::Type(51, "Out".to_string(), SourceTy { id: 52 })]);
    imp.trait_ref = None;
    let program = Program { items: vec![Item { id: 40, kind: ItemKind::Impl(imp) }], tables };
    assert_eq!(
        run(&program),
        Ok("# error with k_S_Out: called `Option::unwrap()` on a `None` value\n\n".to_string())
    );
}

#[test]
fn foreign_block_items_fail_one_by_one() {
    let mut tables = Tables::new();
    tables.paths.insert(def(0, 1), strings(&["ffi"]));
    tables.paths.insert(def(0, 2), strings(&["puts"]));
    tables.paths.insert(def(0, 3), strings(&["errno"]));
    tables.source_types.insert(5, i32t());
    let decl = FnDecl {
        inputs: vec![Arg { pat: ident_pat(4, "x"), ty: SourceTy { id: 5 } }],
        output: FunctionRetTy::DefaultReturn,
    };
    let item = Item {
        id: 1,
        kind: ItemKind::ForeignMod(
            "C".to_string(),
            vec![ForeignItem::Static(3), ForeignItem::Fn(2, decl, no_generics())],
        ),
    };
    let program = Program { items: vec![item], tables };
    assert_eq!(
        run(&program),
        Ok("# error with k_errno: can't translate ForeignItemStatic\nextern_fn C k_puts 0 0 (args 1 x [int 32]) return [unit]\n\n".to_string())
    );
}

/// A call of the method at position 0 of the trait `trait_def`, which is
/// named after `method_def`, in a function `name` declared at `id`.
fn abstract_call(tables: &mut Tables, id: u32, name: &str, trait_def: DefId, method_def: DefId) -> Item {
    tables.trait_items.insert(trait_def, vec![TraitItemId::Method(method_def)]);
    tables.method_map.insert(
        id + 3,
        MethodCallee { origin: MethodOrigin::TypeParam(trait_def, 0), substs: no_substs() },
    );
    tables.node_types.insert(id + 3, i32t());
    tables.signatures.insert(
        method_def,
        Signature::Method(TyGenerics { regions: vec![], types: vec![] }, vec![], FnOutput::Diverging),
    );
    simple_fn(tables, id, name, Expr { id: id + 3, kind: ExprKind::MethodCall(0, vec![]) })
}

#[test]
fn declarations_are_sorted_by_name() {
    let mut tables = Tables::new();
    tables.paths.insert(def(0, 200), strings(&["T", "zeta"]));
    tables.paths.insert(def(0, 201), strings(&["T", "alpha"]));
    tables.paths.insert(def(0, 202), strings(&["T", "mid"]));
    let items = vec![
        abstract_call(&mut tables, 10, "a", def(0, 300), def(0, 200)),
        abstract_call(&mut tables, 20, "b", def(0, 301), def(0, 201)),
        abstract_call(&mut tables, 30, "c", def(0, 302), def(0, 202)),
        abstract_call(&mut tables, 40, "d", def(0, 301), def(0, 201)),
    ];
    let program = Program { items, tables };
    let out = run(&program).unwrap();
    let decls: Vec<&str> = out.lines().filter(|l| l.starts_with("abstract_fn ")).collect();
    assert_eq!(
        decls,
        vec![
            "abstract_fn k_T_alpha 0 0 args 0 return bottom",
            "abstract_fn k_T_mid 0 0 args 0 return bottom",
            "abstract_fn k_T_zeta 0 0 args 0 return bottom",
        ]
    );
    assert!(out.ends_with(
        "abstract_fn k_T_alpha 0 0 args 0 return bottom\nabstract_fn k_T_mid 0 0 args 0 return bottom\nabstract_fn k_T_zeta 0 0 args 0 return bottom\n"
    ));
}

#[test]
fn declaration_order_does_not_depend_on_traversal_order() {
    let build = |order: [u32; 3]| {
        let mut tables = Tables::new();
        tables.paths.insert(def(0, 200), strings(&["T", "zeta"]));
        tables.paths.insert(def(0, 201), strings(&["T", "alpha"]));
        tables.paths.insert(def(0, 202), strings(&["T", "mid"]));
        let mut items = vec![];
        for (i, n) in order.iter().enumerate() {
            items.push(abstract_call(
                &mut tables,
                10 * (i as u32 + 1),
                "f",
                def(0, 300 + n),
                def(0, 200 + n),
            ));
        }
        let out = run(&Program { items, tables }).unwrap();
        out.lines().filter(|l| l.starts_with("abstract_fn ")).map(str::to_string).collect::<Vec<_>>()
    };
    assert_eq!(build([0, 1, 2]), build([2, 0, 1]));
    assert_eq!(build([0, 1, 2]), build([1, 2, 0]));
    assert_eq!(build([0, 1, 2]).len(), 3);
}

#[test]
fn abstract_type_is_declared_with_the_generics_of_its_trait() {
    let mut tables = Tables::new();
    tables.paths.insert(def(0, 500), strings(&["Tr"]));
    tables.trait_generics.insert(
        def(0, 500),
        TyGenerics {
            regions: vec![ParamDef { space: ParamSpace::Type, index: 0 }],
            types: vec![
                ParamDef { space: ParamSpace::SelfSpace, index: 0 },
                ParamDef { space: ParamSpace::Type, index: 0 },
            ],
        },
    );
    let projection = || Ty::Projection(def(0, 500), no_substs(), "Out".to_string());
    tables.node_types.insert(13, projection());
    let f = simple_fn(&mut tables, 10, "f", lit(13, 1));
    tables.node_types.insert(23, projection());
    let g = simple_fn(&mut tables, 20, "g", lit(23, 1));
    let program = Program { items: vec![f, g], tables };
    let out = run(&program).unwrap();
    assert_eq!(out.matches("[abstract k_Tr_Out 0 0]").count(), 2);
    assert!(out.ends_with("\n\n\nabstract_type k_Tr_Out 1 t_0 2 s_0 t_0\n"));
    assert_eq!(out.matches("abstract_type ").count(), 1);
}

#[test]
fn signature_of_an_abstract_function_can_observe_abstract_types() {
    let mut program = generic_caller();
    program.tables.signatures.insert(
        def(0, 11),
        Signature::Method(
            TyGenerics { regions: vec![], types: vec![] },
            vec![],
            FnOutput::Converging(Ty::Projection(def(0, 10), no_substs(), "Out".to_string())),
        ),
    );
    program.tables.trait_generics.insert(def(0, 10), TyGenerics { regions: vec![], types: vec![] });
    let out = run(&program).unwrap();
    assert!(out.ends_with(
        "abstract_fn k_Tr_get 0 0 args 0 return [abstract k_Tr_Out 0 0]\nabstract_type k_Tr_Out 0 0\n"
    ));
}

#[test]
fn declaration_that_cannot_be_written_ends_the_run() {
    let mut program = generic_caller();
    program.tables.signatures = ir_trans::tables::DefTable::new();
    assert_eq!(run(&program), Err(TransError::Missing(Table::Signatures)));
    let mut program = generic_caller();
    program.tables.signatures.insert(def(0, 11), Signature::Type);
    assert_eq!(run(&program), Err(TransError::Unsupported(Construct::NotATraitMethod)));
    let mut program = generic_caller();
    program.tables.signatures.insert(
        def(0, 11),
        Signature::Method(
            TyGenerics { regions: vec![], types: vec![] },
            vec![Ty::Other],
            FnOutput::Diverging,
        ),
    );
    assert_eq!(run(&program), Err(TransError::Unsupported(Construct::TypeKind)));
}

#[test]
fn abstract_type_of_an_unknown_trait_ends_the_run() {
    let mut tables = Tables::new();
    tables.paths.insert(def(0, 500), strings(&["Tr"]));
    tables.node_types.insert(13, Ty::Projection(def(0, 500), no_substs(), "Out".to_string()));
    let f = simple_fn(&mut tables, 10, "f", lit(13, 1));
    let program = Program { items: vec![f], tables };
    assert_eq!(run(&program), Err(TransError::Missing(Table::TraitGenerics)));
}

#[test]
fn observations_of_a_failing_item_are_still_declared() {
    let mut tables = Tables::new();
    tables.paths.insert(def(0, 200), strings(&["T", "m"]));
    let call = abstract_call(&mut tables, 10, "f", def(0, 300), def(0, 200));
    let (decl, body) = match call.kind {
        ItemKind::Fn(decl, _, _, body) => (decl, body),
        _ => unreachable!(),
    };
    tables.node_types.insert(50, i32t());
    let failing_body = Block {
        id: 12,
        rules: Unsafety::Normal,
        stmts: vec![ir_trans::ast::Stmt::Semi(*body.expr.unwrap()), ir_trans::ast::Stmt::Mac],
        expr: None,
    };
    let item = Item { id: 10, kind: ItemKind::Fn(decl, Unsafety::Normal, no_generics(), failing_body) };
    let program = Program { items: vec![item], tables };
    assert_eq!(
        run(&program),
        Ok("# error with k_f: expected no macros, but saw StmtMac\nabstract_fn k_T_m 0 0 args 0 return bottom\n".to_string())
    );
}

#[test]
fn declarations_read_the_registries_of_the_context() {
    let mut tables = Tables::new();
    tables.signatures.insert(
        def(0, 1),
        Signature::Method(
            TyGenerics {
                regions: vec![ParamDef { space: ParamSpace::Function, index: 0 }],
                types: vec![ParamDef { space: ParamSpace::SelfSpace, index: 0 }],
            },
            vec![Ty::Bool, i32t()],
            FnOutput::Converging(Ty::Bool),
        ),
    );
    tables.trait_generics.insert(def(0, 2), TyGenerics { regions: vec![], types: vec![] });
    let mut ctx = TransCtxt::new("k".to_string());
    ctx.observe_fn("n".to_string(), def(0, 1));
    ctx.observe_type("t".to_string(), def(0, 2));
    assert_eq!(
        print_abstract_fn_decls(&tables, &mut ctx),
        Ok("abstract_fn n 1 f_0 1 s_0 args 2 arg0 [bool] arg1 [int 32] return [bool]\n".to_string())
    );
    assert_eq!(print_abstract_type_decls(&tables, &ctx), Ok("abstract_type t 0 0\n".to_string()));
    assert_eq!(
        trans_param_defs(&vec![
            ParamDef { space: ParamSpace::Type, index: 3 },
            ParamDef { space: ParamSpace::Function, index: 0 }
        ]),
        "2 t_3 f_0"
    );
}

#[test]
fn visiting_an_item_gives_one_line() {
    let mut tables = Tables::new();
    tables.paths.insert(def(0, 5), strings(&["m"]));
    let mut ctx = TransCtxt::new("k".to_string());
    assert_eq!(
        visit_item(&tables, &mut ctx, &vec![], &Item { id: 5, kind: ItemKind::Other }),
        Ok("\n".to_string())
    );
    assert_eq!(
        visit_item(&tables, &mut ctx, &vec![], &Item { id: 6, kind: ItemKind::Other }),
        Err(TransError::UnresolvedPath(def(0, 6)))
    );
}

#[test]
fn suppressed_function_still_observes_what_its_signature_names() {
    let mut tables = Tables::new();
    tables.paths.insert(def(0, 1), strings(&["f"]));
    tables.paths.insert(def(0, 500), strings(&["Tr"]));
    tables.trait_generics.insert(def(0, 500), TyGenerics { regions: vec![], types: vec![] });
    tables.source_types.insert(3, Ty::Projection(def(0, 500), no_substs(), "Out".to_string()));
    let decl = FnDecl {
        inputs: vec![Arg { pat: ident_pat(2, "x"), ty: SourceTy { id: 3 } }],
        output: FunctionRetTy::DefaultReturn,
    };
    let body = block(4, Some(Expr { id: 5, kind: ExprKind::Range }));
    let program = Program {
        items: vec![Item { id: 1, kind: ItemKind::Fn(decl, Unsafety::Normal, no_generics(), body) }],
        tables,
    };
    assert_eq!(
        process(&program, strings(&["k_f"]), "k".to_string()),
        Ok("fn k_f 0 0 (args 1 x [abstract k_Tr_Out 0 0]) return [unit] 0\n\n\nabstract_type k_Tr_Out 0 0\n".to_string())
    );
}

#[test]
fn destructor_kinds() {
    let mut tables = Tables::new();
    tables.paths.insert(def(0, 20), strings(&["S.Drop"]));
    tables.dtors.insert(def(0, 1), def(0, 20));
    assert_eq!(tables.ty_dtor(def(0, 1)), DtorKind::TraitDtor(def(0, 20)));
    assert_eq!(tables.ty_dtor(def(0, 2)), DtorKind::NoDtor);
    assert_eq!(DtorKind::NoDtor.trans(&tables, "k"), Ok("0".to_string()));
    assert_eq!(DtorKind::TraitDtor(def(0, 20)).trans(&tables, "k"), Ok("1 k_S__Drop".to_string()));
    assert_eq!(
        DtorKind::TraitDtor(def(0, 21)).trans(&tables, "k"),
        Err(TransError::UnresolvedPath(def(0, 21)))
    );
}
