use hir_ty::ast::{
    ArgList, Block, Condition, Expr, ExprKind, FnDef, LocalSyntaxPtr, MatchArm, MatchArmList,
    NameRef, NamedField, NamedFieldList, Param, ParamList, Pat, Path as AstPath, PathSegment, Stmt,
    SyntaxNodeRef, TextRange, TypeRef,
};
use hir_ty::db::Canceled;
use hir_ty::hir::{
    Def, DefId, FnScopes, Function, LocalUse, Module, Path, PathKind, PerNs, ScopeEntry, Struct,
    StructField, VariantData,
};
use hir_ty::infer::{infer, InferenceContext, InferenceResult};
use hir_ty::lower::type_for_def;
use hir_ty::primitive::{IntTy, UintTy};
use hir_ty::snapshot::{DefEntry, PathEntry, Snapshot};
use hir_ty::ty::{FnSig, Ty};
use std::sync::Arc;

const ROOT: Module = Module(0);
const MAIN: Function = Function(DefId(0));

/// The node with the given number.
fn node(n: u32) -> SyntaxNodeRef {
    SyntaxNodeRef { range: TextRange { start: n, end: n + 1 }, kind: 7 }
}

fn ptr(n: u32) -> LocalSyntaxPtr {
    LocalSyntaxPtr::new(node(n))
}

fn expr(n: u32, kind: ExprKind) -> Expr {
    Expr { syntax: node(n), kind }
}

fn some(e: Expr) -> Option<Box<Expr>> {
    Some(Box::new(e))
}

fn block(n: u32, statements: Vec<Stmt>, tail: Option<Box<Expr>>) -> Block {
    Block { syntax: node(n), statements, expr: tail }
}

fn pat(n: u32) -> Option<Pat> {
    Some(Pat { syntax: node(n) })
}

fn hir_path(names: &[&str]) -> Path {
    Path { kind: PathKind::Plain, segments: names.iter().map(|n| n.to_string()).collect() }
}

/// A path whose last name stands at the given node.
fn path(at: u32, names: &[&str]) -> AstPath {
    AstPath {
        segment: Some(PathSegment {
            name_ref: Some(NameRef { syntax: node(at), text: names[names.len() - 1].to_owned() }),
        }),
        lowered: Some(hir_path(names)),
    }
}

fn path_expr(n: u32, names: &[&str]) -> Expr {
    expr(n, ExprKind::PathExpr { path: Some(path(n + 1000, names)) })
}

fn written(name: &str) -> Option<TypeRef> {
    Some(TypeRef::PathType { path: Some(path(0, &[name])) })
}

/// A cast of a literal, which is of the written type.
fn value(n: u32, ty: &str) -> Expr {
    expr(n, ExprKind::CastExpr { expr: some(expr(n + 500, ExprKind::Literal)), type_ref: written(ty) })
}

fn let_stmt(p: u32, ty: Option<TypeRef>, init: Option<Box<Expr>>) -> Stmt {
    Stmt::LetStmt { pat: pat(p), type_ref: ty, initializer: init }
}

fn uses(list: &[(u32, u32)]) -> FnScopes {
    FnScopes {
        uses: list
            .iter()
            .map(|(name, binding)| LocalUse {
                name: ptr(*name),
                entry: ScopeEntry { ptr: ptr(*binding) },
            })
            .collect(),
    }
}

fn adt(id: u32, name: &str) -> Ty {
    Ty::Adt { def_id: DefId(id), name: name.to_owned() }
}

fn i32_ty() -> Ty {
    Ty::Int(IntTy::I32)
}

fn entry(def: Def, ty: Ty) -> DefEntry {
    DefEntry {
        def: Ok(def),
        ty: Ok(ty),
        name: Ok(Some("S".to_owned())),
        variant_data: Ok(Arc::new(VariantData { fields: vec![] })),
        module: Ok(ROOT),
        syntax: Arc::new(FnDef { param_list: None, ret_type: None, body: None }),
        scopes: Arc::new(FnScopes { uses: vec![] }),
    }
}

/// A function `main`, a struct `S { a: i32, b: u8 }`, a function `f` that results in `i32`, a
/// constant `pair: (i32, S)`, and a path that is canceled.
fn program(main: FnDef, scopes: FnScopes) -> Snapshot {
    let mut main_entry = entry(Def::Function(MAIN), Ty::Unknown);
    main_entry.syntax = Arc::new(main);
    main_entry.scopes = Arc::new(scopes);
    let mut s = entry(Def::Struct(Struct(DefId(1))), adt(1, "S"));
    s.variant_data = Ok(Arc::new(VariantData {
        fields: vec![
            StructField { name: "a".to_owned(), ty: i32_ty() },
            StructField { name: "b".to_owned(), ty: Ty::Uint(UintTy::U8) },
            StructField { name: "a".to_owned(), ty: Ty::Never },
        ],
    }));
    let f = entry(
        Def::Function(Function(DefId(2))),
        Ty::FnPtr(Arc::new(FnSig { input: vec![Ty::Bool], output: i32_ty() })),
    );
    let pair = entry(Def::Item, Ty::Tuple(vec![i32_ty(), adt(1, "S")]));
    let found = |names: &[&str], types: Option<u32>, values: Option<u32>| PathEntry {
        module: ROOT,
        path: hir_path(names),
        found: Ok(PerNs { types: types.map(DefId), values: values.map(DefId) }),
    };
    Snapshot {
        defs: vec![main_entry, s, f, pair],
        paths: vec![
            found(&["S"], Some(1), None),
            found(&["f"], None, Some(2)),
            found(&["pair"], None, Some(3)),
            found(&["m", "f"], None, Some(2)),
            PathEntry { module: ROOT, path: hir_path(&["gone"]), found: Err(Canceled) },
        ],
    }
}

fn body_of(body: Block) -> FnDef {
    FnDef { param_list: None, ret_type: None, body: Some(body) }
}

/// Infers a function that holds nothing but the given expression.
fn infer_tail(e: Expr) -> InferenceResult {
    infer_tail_with(e, uses(&[]))
}

fn infer_tail_with(e: Expr, scopes: FnScopes) -> InferenceResult {
    let db = program(body_of(block(0, vec![], some(e))), scopes);
    infer(&db, MAIN).unwrap()
}

fn type_at(result: &InferenceResult, n: u32) -> Option<Ty> {
    result.type_of_node(node(n))
}

/// The type of an expression at node 1.
fn type_of(kind: ExprKind) -> Ty {
    type_at(&infer_tail(expr(1, kind)), 1).unwrap()
}

#[test]
fn a_function_without_a_body_has_no_types() {
    let db = program(FnDef { param_list: None, ret_type: None, body: None }, uses(&[]));
    let result = infer(&db, MAIN).unwrap();
    assert_eq!(type_at(&result, 0), None);
    assert!(result.clone() == result);
}

#[test]
fn parameters_have_their_written_types() {
    let params = vec![
        Param { pat: pat(1), type_ref: written("u8") },
        Param { pat: None, type_ref: written("gone") },
        Param { pat: pat(2), type_ref: None },
        Param { pat: pat(3), type_ref: Some(TypeRef::NeverType) },
    ];
    let main = FnDef { param_list: Some(ParamList { params }), ret_type: None, body: None };
    let result = infer(&program(main, uses(&[])), MAIN).unwrap();
    assert_eq!(type_at(&result, 1), Some(Ty::Uint(UintTy::U8)));
    assert_eq!(type_at(&result, 2), Some(Ty::Unknown));
    assert_eq!(type_at(&result, 3), Some(Ty::Never));
    assert_eq!(type_at(&result, 4), None);
}

#[test]
fn a_canceled_parameter_cancels_the_function() {
    let params = vec![Param { pat: pat(1), type_ref: written("gone") }];
    let main = FnDef { param_list: Some(ParamList { params }), ret_type: None, body: None };
    assert!(infer(&program(main, uses(&[])), MAIN) == Err(Canceled));
}

#[test]
fn a_function_of_no_module_is_canceled() {
    let mut db = program(FnDef { param_list: None, ret_type: None, body: None }, uses(&[]));
    db.defs[0].module = Err(Canceled);
    assert!(infer(&db, MAIN) == Err(Canceled));
    assert!(infer(&db, Function(DefId(99))) == Err(Canceled));
}

#[test]
fn a_block_has_the_type_of_its_tail() {
    let result = infer_tail(value(1, "i32"));
    assert_eq!(type_at(&result, 0), Some(i32_ty()));
    assert_eq!(type_at(&result, 1), Some(i32_ty()));
    // the literal inside the cast
    assert_eq!(type_at(&result, 501), Some(Ty::Unknown));
}

#[test]
fn a_block_without_a_tail_is_unit() {
    let stmt = Stmt::ExprStmt { expr: some(value(1, "i32")) };
    let empty = Stmt::ExprStmt { expr: None };
    let db = program(body_of(block(0, vec![stmt, empty], None)), uses(&[]));
    let result = infer(&db, MAIN).unwrap();
    assert_eq!(type_at(&result, 0), Some(Ty::unit()));
    assert_eq!(type_at(&result, 1), Some(i32_ty()));
}

#[test]
fn let_patterns_prefer_the_declared_type() {
    let stmts = vec![
        let_stmt(1, None, some(value(11, "i32"))),
        let_stmt(2, written("u8"), some(expr(12, ExprKind::Literal))),
        let_stmt(3, written("u8"), some(value(13, "u8"))),
        let_stmt(4, written("u8"), some(value(14, "i32"))),
        let_stmt(5, written("u8"), None),
        let_stmt(6, None, None),
        Stmt::LetStmt { pat: None, type_ref: None, initializer: some(value(15, "f32")) },
    ];
    let db = program(body_of(block(0, stmts, None)), uses(&[]));
    let result = infer(&db, MAIN).unwrap();
    let u8_ty = Some(Ty::Uint(UintTy::U8));
    assert_eq!(type_at(&result, 1), Some(i32_ty()));
    assert_eq!(type_at(&result, 2), u8_ty);
    assert_eq!(type_at(&result, 3), u8_ty);
    assert_eq!(type_at(&result, 4), u8_ty);
    assert_eq!(type_at(&result, 5), u8_ty);
    assert_eq!(type_at(&result, 6), Some(Ty::Unknown));
    assert_eq!(type_at(&result, 15).unwrap().to_string(), "f32");
}

#[test]
fn local_names_have_the_type_of_their_binding() {
    let stmts = vec![let_stmt(1, written("u8"), None)];
    let tail = path_expr(2, &["f"]);
    let main = body_of(block(0, stmts, some(tail)));
    let result = infer(&program(main, uses(&[(1002, 1)])), MAIN).unwrap();
    assert_eq!(type_at(&result, 2), Some(Ty::Uint(UintTy::U8)));
}

#[test]
fn a_binding_without_a_type_hides_items_too() {
    let result = infer_tail_with(path_expr(1, &["f"]), uses(&[(1001, 77)]));
    assert_eq!(type_at(&result, 1), Some(Ty::Unknown));
    let result = infer_tail_with(path_expr(1, &["gone"]), uses(&[(1001, 77)]));
    assert_eq!(type_at(&result, 1), Some(Ty::Unknown));
}

#[test]
fn other_names_are_looked_up_as_items() {
    assert_eq!(type_at(&infer_tail(path_expr(1, &["f"])), 1).unwrap().to_string(), "fn(bool,) -> i32");
    assert_eq!(type_at(&infer_tail(path_expr(1, &["nobody"])), 1), Some(Ty::Unknown));
    // `S` is a type, not a value
    assert_eq!(type_at(&infer_tail(path_expr(1, &["S"])), 1), Some(Ty::Unknown));
    // a local binding cannot hide a longer path
    let result = infer_tail_with(path_expr(1, &["m", "f"]), uses(&[(1001, 77)]));
    assert_eq!(type_at(&result, 1).unwrap().to_string(), "fn(bool,) -> i32");
}

#[test]
fn incomplete_paths_are_unknown() {
    assert_eq!(type_of(ExprKind::PathExpr { path: None }), Ty::Unknown);
    let no_lowered = AstPath { segment: None, lowered: None };
    assert_eq!(type_of(ExprKind::PathExpr { path: Some(no_lowered) }), Ty::Unknown);
    let no_segment = AstPath { segment: None, lowered: Some(hir_path(&["f"])) };
    assert_eq!(type_of(ExprKind::PathExpr { path: Some(no_segment) }), Ty::Unknown);
    let no_name = AstPath {
        segment: Some(PathSegment { name_ref: None }),
        lowered: Some(hir_path(&["f"])),
    };
    assert_eq!(type_of(ExprKind::PathExpr { path: Some(no_name) }), Ty::Unknown);
}

fn if_expr(then_ty: &str, else_ty: Option<&str>) -> ExprKind {
    ExprKind::IfExpr {
        condition: Some(Condition { expr: some(expr(10, ExprKind::Literal)) }),
        then_branch: Some(block(11, vec![], some(value(12, then_ty)))),
        else_branch: else_ty.map(|ty| block(13, vec![], some(value(14, ty)))),
    }
}

#[test]
fn the_branches_of_an_if_are_joined() {
    assert_eq!(type_of(if_expr("i32", Some("i32"))), i32_ty());
    assert_eq!(type_of(if_expr("i32", Some("u8"))), Ty::Unknown);
    assert_eq!(type_of(if_expr("i32", None)), i32_ty());
    assert_eq!(type_of(if_expr("nobody", Some("u8"))), Ty::Uint(UintTy::U8));
    let result = infer_tail(expr(1, if_expr("i32", Some("u8"))));
    for n in [0, 1, 10, 11, 12, 13, 14] {
        assert!(type_at(&result, n).is_some());
    }
}

#[test]
fn loops_are_of_unknown_type_and_inferred_inside() {
    let body = |n: u32| Some(block(n, vec![], some(value(n + 1, "i32"))));
    let condition = |n: u32| Some(Condition { expr: some(value(n, "u8")) });
    let kinds = vec![
        ExprKind::LoopExpr { loop_body: body(20) },
        ExprKind::WhileExpr { condition: condition(30), loop_body: body(20) },
        ExprKind::WhileExpr { condition: None, loop_body: body(20) },
        ExprKind::ForExpr { pat: pat(40), iterable: some(value(30, "u8")), loop_body: body(20) },
    ];
    for kind in kinds {
        let inferred = !matches!(
            &kind,
            ExprKind::LoopExpr { .. } | ExprKind::WhileExpr { condition: None, .. }
        );
        let result = infer_tail(expr(1, kind));
        assert_eq!(type_at(&result, 1), Some(Ty::Unknown));
        assert_eq!(type_at(&result, 20), Some(i32_ty()));
        assert_eq!(type_at(&result, 21), Some(i32_ty()));
        assert_eq!(type_at(&result, 30).is_some(), inferred);
        assert_eq!(type_at(&result, 40), None);
    }
}

#[test]
fn a_call_has_the_result_type_of_its_callee() {
    let call = |callee: Expr| ExprKind::CallExpr {
        expr: some(callee),
        arg_list: Some(ArgList { args: vec![value(20, "u8"), value(21, "f64")] }),
    };
    assert_eq!(type_of(call(path_expr(10, &["f"]))), i32_ty());
    assert_eq!(type_of(call(path_expr(10, &["pair"]))), Ty::Unknown);
    assert_eq!(type_of(ExprKind::CallExpr { expr: None, arg_list: None }), Ty::Unknown);
    let no_args = ExprKind::CallExpr { expr: some(path_expr(10, &["f"])), arg_list: None };
    assert_eq!(type_of(no_args), i32_ty());
    let result = infer_tail(expr(1, call(path_expr(10, &["f"]))));
    assert_eq!(type_at(&result, 20), Some(Ty::Uint(UintTy::U8)));
    assert_eq!(type_at(&result, 21).unwrap().to_string(), "f64");
}

#[test]
fn a_call_agrees_with_the_type_of_the_definition() {
    let mut db = program(
        body_of(block(0, vec![], some(expr(1, ExprKind::CallExpr {
            expr: some(path_expr(2, &["f"])),
            arg_list: None,
        })))),
        uses(&[]),
    );
    db.defs[2].syntax = Arc::new(FnDef {
        param_list: None,
        ret_type: Some(hir_ty::ast::RetType { type_ref: written("u64") }),
        body: None,
    });
    db.defs[2].ty = type_for_def(&db, DefId(2));
    let result = infer(&db, MAIN).unwrap();
    assert_eq!(type_at(&result, 1), Some(Ty::Uint(UintTy::U64)));
}

#[test]
fn method_calls_and_matches_are_inferred_inside() {
    let call = ExprKind::MethodCallExpr {
        expr: some(path_expr(10, &["f"])),
        arg_list: Some(ArgList { args: vec![value(20, "u8")] }),
    };
    let result = infer_tail(expr(1, call));
    assert_eq!(type_at(&result, 1), Some(Ty::Unknown));
    assert!(type_at(&result, 10).is_some());
    assert_eq!(type_at(&result, 20), Some(Ty::Uint(UintTy::U8)));

    let arms = vec![MatchArm { expr: some(value(20, "i32")) }, MatchArm { expr: None }, MatchArm {
        expr: some(value(21, "i32")),
    }];
    let result = infer_tail(expr(1, ExprKind::MatchExpr {
        expr: some(value(10, "u8")),
        match_arm_list: Some(MatchArmList { arms }),
    }));
    assert_eq!(type_at(&result, 1), Some(Ty::Unknown));
    assert_eq!(type_at(&result, 10), Some(Ty::Uint(UintTy::U8)));
    assert_eq!(type_at(&result, 20), Some(i32_ty()));
    assert_eq!(type_at(&result, 21), Some(i32_ty()));
    let no_arms = ExprKind::MatchExpr { expr: some(value(10, "u8")), match_arm_list: None };
    assert_eq!(type_of(no_arms), Ty::Unknown);
}

#[test]
fn jumps_are_of_the_never_type() {
    assert_eq!(type_of(ExprKind::ContinueExpr), Ty::Never);
    assert_eq!(type_of(ExprKind::BreakExpr), Ty::Never);
    assert_eq!(type_of(ExprKind::ReturnExpr { expr: None }), Ty::Never);
    assert_eq!(type_of(ExprKind::ReturnExpr { expr: some(value(10, "i32")) }), Ty::Never);
}

#[test]
fn expressions_with_one_operand() {
    let inner = || some(value(10, "i32"));
    assert_eq!(type_of(ExprKind::ParenExpr { expr: inner() }), i32_ty());
    assert_eq!(type_of(ExprKind::ParenExpr { expr: None }), Ty::Unknown);
    let b = Some(block(10, vec![], inner()));
    assert_eq!(type_of(ExprKind::BlockExpr { block: b }), i32_ty());
    assert_eq!(type_of(ExprKind::BlockExpr { block: None }), Ty::Unknown);
    for kind in [
        ExprKind::LambdaExpr { body: inner() },
        ExprKind::TryExpr { expr: inner() },
        ExprKind::RefExpr { expr: inner() },
        ExprKind::PrefixExpr { expr: inner() },
    ] {
        let result = infer_tail(expr(1, kind));
        assert_eq!(type_at(&result, 1), Some(Ty::Unknown));
        assert_eq!(type_at(&result, 10), Some(i32_ty()));
    }
    let cast = ExprKind::CastExpr { expr: inner(), type_ref: written("u8") };
    assert_eq!(type_of(cast), Ty::Uint(UintTy::U8));
    assert_eq!(type_of(ExprKind::CastExpr { expr: inner(), type_ref: None }), Ty::Unknown);
}

#[test]
fn expressions_of_which_nothing_is_known() {
    for kind in [
        ExprKind::TupleExpr,
        ExprKind::ArrayExpr,
        ExprKind::Label,
        ExprKind::MatchArmList,
        ExprKind::MatchArm,
        ExprKind::MatchGuard,
        ExprKind::NamedFieldList,
        ExprKind::NamedField,
        ExprKind::IndexExpr,
        ExprKind::RangeExpr,
        ExprKind::BinExpr,
        ExprKind::Literal,
    ] {
        assert_eq!(type_of(kind), Ty::Unknown);
    }
}

#[test]
fn a_struct_literal_has_the_type_of_its_struct() {
    let literal = |names: &[&str]| ExprKind::StructLit {
        path: Some(path(5, names)),
        named_field_list: Some(NamedFieldList {
            fields: vec![NamedField { expr: some(value(10, "u8")) }, NamedField { expr: None }],
        }),
    };
    let result = infer_tail(expr(1, literal(&["S"])));
    assert_eq!(type_at(&result, 1), Some(adt(1, "S")));
    assert_eq!(type_at(&result, 10), Some(Ty::Uint(UintTy::U8)));
    assert_eq!(type_of(literal(&["f"])), Ty::Unknown);
    assert_eq!(type_of(ExprKind::StructLit { path: None, named_field_list: None }), Ty::Unknown);
}

fn field(receiver: Expr, name: &str) -> ExprKind {
    ExprKind::FieldExpr {
        expr: some(receiver),
        name_ref: Some(NameRef { syntax: node(99), text: name.to_owned() }),
    }
}

#[test]
fn tuple_fields_are_found_by_index() {
    let pair = || path_expr(10, &["pair"]);
    assert_eq!(type_of(field(pair(), "0")), i32_ty());
    assert_eq!(type_of(field(pair(), "1")), adt(1, "S"));
    assert_eq!(type_of(field(pair(), "01")), adt(1, "S"));
    assert_eq!(type_of(field(pair(), "+1")), adt(1, "S"));
    for name in ["2", "", "+", "-0", "a", "1a", " 1", "1 ", "1_", "++1", "99999999999999999999999"] {
        assert_eq!(type_of(field(pair(), name)), Ty::Unknown);
    }
    let unnamed = ExprKind::FieldExpr { expr: some(pair()), name_ref: None };
    assert_eq!(type_of(unnamed), Ty::Unknown);
}

#[test]
fn struct_fields_are_found_by_name() {
    let s = || {
        let kind = ExprKind::StructLit { path: Some(path(5, &["S"])), named_field_list: None };
        expr(10, kind)
    };
    // the first of two fields of one name
    assert_eq!(type_of(field(s(), "a")), i32_ty());
    assert_eq!(type_of(field(s(), "b")), Ty::Uint(UintTy::U8));
    assert_eq!(type_of(field(s(), "c")), Ty::Unknown);
    assert_eq!(type_of(field(s(), "0")), Ty::Unknown);
    // a field of a field
    let inner = expr(11, field(path_expr(12, &["pair"]), "1"));
    assert_eq!(type_of(field(inner, "b")), Ty::Uint(UintTy::U8));
    // neither a tuple nor a struct
    assert_eq!(type_of(field(value(10, "i32"), "0")), Ty::Unknown);
    assert_eq!(type_of(field(expr(10, ExprKind::Literal), "a")), Ty::Unknown);
}

#[test]
fn a_field_of_something_else_than_a_struct_is_unknown() {
    let mut db = program(
        body_of(block(0, vec![], some(expr(1, field(path_expr(2, &["pair"]), "a"))))),
        uses(&[]),
    );
    db.defs[3].ty = Ok(adt(2, "f"));
    assert_eq!(type_at(&infer(&db, MAIN).unwrap(), 1), Some(Ty::Unknown));
    db.defs[3].ty = Ok(adt(1, "S"));
    assert_eq!(type_at(&infer(&db, MAIN).unwrap(), 1), Some(i32_ty()));
    db.defs[1].variant_data = Err(Canceled);
    assert!(infer(&db, MAIN) == Err(Canceled));
}

#[test]
fn a_canceled_question_cancels_the_function() {
    let kinds = vec![
        ExprKind::PathExpr { path: Some(path(5, &["gone"])) },
        ExprKind::StructLit { path: Some(path(5, &["gone"])), named_field_list: None },
        ExprKind::CastExpr { expr: None, type_ref: written("gone") },
        ExprKind::CallExpr { expr: None, arg_list: Some(ArgList { args: vec![value(2, "gone")] }) },
        ExprKind::LambdaExpr { body: some(value(2, "gone")) },
        ExprKind::MatchExpr {
            expr: None,
            match_arm_list: Some(MatchArmList { arms: vec![MatchArm { expr: some(value(2, "gone")) }] }),
        },
        ExprKind::StructLit {
            path: None,
            named_field_list: Some(NamedFieldList {
                fields: vec![NamedField { expr: some(value(2, "gone")) }],
            }),
        },
        ExprKind::LoopExpr { loop_body: Some(block(2, vec![let_stmt(3, written("gone"), None)], None)) },
    ];
    for kind in kinds {
        let db = program(body_of(block(0, vec![], some(expr(1, kind)))), uses(&[]));
        assert!(infer(&db, MAIN) == Err(Canceled));
    }
}

#[test]
fn a_for_loop_outlives_its_iterable() {
    let iterable = expr(10, ExprKind::CallExpr {
        expr: some(path_expr(11, &["f"])),
        arg_list: Some(ArgList { args: vec![value(12, "gone"), value(13, "u8")] }),
    });
    let result = infer_tail(expr(1, ExprKind::ForExpr {
        pat: None,
        iterable: some(iterable),
        loop_body: Some(block(20, vec![], some(value(21, "i32")))),
    }));
    assert_eq!(type_at(&result, 1), Some(Ty::Unknown));
    assert_eq!(type_at(&result, 20), Some(i32_ty()));
    // what was recorded before the cancellation stays, what would have come behind it does not
    assert!(type_at(&result, 11).is_some());
    assert_eq!(type_at(&result, 10), None);
    assert_eq!(type_at(&result, 12), None);
    assert_eq!(type_at(&result, 13), None);
}

#[test]
fn a_later_record_replaces_an_earlier_one() {
    let stmts = vec![let_stmt(1, written("u8"), None), let_stmt(1, written("i32"), None)];
    let db = program(body_of(block(0, stmts, None)), uses(&[]));
    assert_eq!(type_at(&infer(&db, MAIN).unwrap(), 1), Some(i32_ty()));
}

#[test]
fn nodes_differ_by_kind_and_by_range() {
    let result = infer_tail(value(1, "i32"));
    let at = |start: u32, end: u32, kind: u16| {
        result.type_of_node(SyntaxNodeRef { range: TextRange { start, end }, kind })
    };
    assert_eq!(at(1, 2, 7), Some(i32_ty()));
    assert_eq!(at(1, 2, 8), None);
    assert_eq!(at(1, 3, 7), None);
    assert_eq!(at(2, 2, 7), None);
}

#[test]
fn types_are_unified() {
    let db = program(FnDef { param_list: None, ret_type: None, body: None }, uses(&[]));
    let ctx = InferenceContext::new(&db, Arc::new(uses(&[])), ROOT);
    assert_eq!(ctx.unify(&Ty::Unknown, &i32_ty()), Some(i32_ty()));
    assert_eq!(ctx.unify(&i32_ty(), &Ty::Unknown), Some(i32_ty()));
    assert_eq!(ctx.unify(&i32_ty(), &i32_ty()), Some(i32_ty()));
    assert_eq!(ctx.unify(&i32_ty(), &Ty::Never), None);
    assert_eq!(ctx.unify(&Ty::Unknown, &Ty::Unknown), Some(Ty::Unknown));
    assert_eq!(ctx.unify(&Ty::Tuple(vec![Ty::Unknown]), &Ty::Tuple(vec![Ty::Bool])), None);
    assert_eq!(ctx.unify_with_coercion(&Ty::Never, &i32_ty()), None);
}

#[test]
fn a_context_can_be_driven_by_hand() {
    let db = program(FnDef { param_list: None, ret_type: None, body: None }, uses(&[]));
    let mut ctx = InferenceContext::new(&db, Arc::new(uses(&[(1005, 1)])), ROOT);
    ctx.write_ty(node(1), Ty::Bool);
    let before = ctx.clone();
    assert_eq!(ctx.infer_expr(&path_expr(5, &["x"])), Ok(Ty::Bool));
    ctx.write_ty(node(1), Ty::Char);
    assert_eq!(ctx.infer_expr(&path_expr(5, &["x"])), Ok(Ty::Char));
    assert_eq!(before.infer_path_expr(&Some(path(1005, &["x"]))), Ok(Some(Ty::Bool)));
    assert_eq!(ctx.infer_expr_opt(&None), Ok(Ty::Unknown));
    assert_eq!(ctx.infer_block_opt(&None), Ok(Ty::Unknown));
    assert_eq!(ctx.infer_block(&block(0, vec![], None)), Ok(Ty::unit()));
    let (ty, fields) = ctx.resolve_variant(&Some(path(2, &["S"]))).unwrap();
    assert_eq!(ty, adt(1, "S"));
    assert_eq!(fields.unwrap().fields.len(), 3);
    assert_eq!(ctx.resolve_variant(&None).unwrap().0, Ty::Unknown);
    assert_eq!(ctx.resolve_variant(&Some(path(2, &["gone"]))).unwrap_err(), Canceled);
}

#[test]
fn only_a_canceled_iterable_leaves_nodes_without_a_type() {
    let for_loop = |n: u32, iterable: Expr| {
        let body = block(n + 20, vec![], some(value(n + 21, "i32")));
        Stmt::ExprStmt {
            expr: some(expr(n, ExprKind::ForExpr {
                pat: None,
                iterable: some(iterable),
                loop_body: Some(body),
            })),
        }
    };
    let paren = |n: u32, inner: Expr| expr(n, ExprKind::ParenExpr { expr: some(inner) });
    let stmts = vec![
        for_loop(100, paren(110, value(111, "gone"))),
        for_loop(200, paren(210, value(211, "u8"))),
        let_stmt(300, None, some(paren(301, value(302, "i32")))),
    ];
    let db = program(body_of(block(0, stmts, some(value(400, "u8")))), uses(&[]));
    let result = infer(&db, MAIN).unwrap();
    // outside the iterables, and inside the one that was answered
    for n in [0, 100, 120, 121, 200, 220, 221, 300, 301, 302, 400, 210, 211] {
        assert!(type_at(&result, n).is_some());
    }
    // inside the iterable that was canceled
    for n in [110, 111] {
        assert_eq!(type_at(&result, n), None);
    }
}

#[test]
fn a_let_pattern_keeps_its_type_to_the_end_of_the_block() {
    let inner = expr(30, ExprKind::BlockExpr {
        block: Some(block(31, vec![let_stmt(32, written("f64"), None)], some(path_expr(33, &["x"])))),
    });
    let stmts = vec![
        let_stmt(1, None, some(value(11, "i32"))),
        let_stmt(2, written("u8"), some(value(12, "i32"))),
        Stmt::ExprStmt { expr: some(inner) },
        let_stmt(3, None, None),
    ];
    let tail = expr(40, ExprKind::ParenExpr { expr: some(path_expr(41, &["y"])) });
    let main = body_of(block(0, stmts, some(tail)));
    let result = infer(&program(main, uses(&[(1033, 1), (1041, 2)])), MAIN).unwrap();
    assert_eq!(type_at(&result, 1), Some(i32_ty()));
    assert_eq!(type_at(&result, 2), Some(Ty::Uint(UintTy::U8)));
    assert_eq!(type_at(&result, 3), Some(Ty::Unknown));
    assert_eq!(type_at(&result, 31), Some(i32_ty()));
    assert_eq!(type_at(&result, 0), Some(Ty::Uint(UintTy::U8)));
}
