use hir_ty::ast::{FnDef, Param, ParamList, Path as AstPath, RetType, TypeRef};
use hir_ty::db::Canceled;
use hir_ty::hir::{
    Def, DefId, Enum, FnScopes, Function, Module, Path, PathKind, PerNs, Struct, VariantData,
};
use hir_ty::lower::{type_for_def, type_for_enum, type_for_fn, type_for_struct};
use hir_ty::primitive::{FloatTy, IntTy, UintTy};
use hir_ty::snapshot::{DefEntry, PathEntry, Snapshot};
use hir_ty::ty::Ty;
use std::sync::Arc;

const ROOT: Module = Module(0);

fn hir_path(names: &[&str]) -> Path {
    Path { kind: PathKind::Plain, segments: names.iter().map(|n| n.to_string()).collect() }
}

fn path(names: &[&str]) -> AstPath {
    AstPath { segment: None, lowered: Some(hir_path(names)) }
}

fn path_type(names: &[&str]) -> TypeRef {
    TypeRef::PathType { path: Some(path(names)) }
}

fn param(type_ref: Option<TypeRef>) -> Param {
    Param { pat: None, type_ref }
}

fn entry(def: Def, ty: Ty, name: Option<&str>) -> DefEntry {
    DefEntry {
        def: Ok(def),
        ty: Ok(ty),
        name: Ok(name.map(|n| n.to_owned())),
        variant_data: Ok(Arc::new(VariantData { fields: vec![] })),
        module: Ok(ROOT),
        syntax: Arc::new(FnDef { param_list: None, ret_type: None, body: None }),
        scopes: Arc::new(FnScopes { uses: vec![] }),
    }
}

fn adt(id: u32, name: &str) -> Ty {
    Ty::Adt { def_id: DefId(id), name: name.to_owned() }
}

/// A struct `S`, an enum without a name, a function, a module and an item of another kind; and
/// a path for each of the first two.
fn program(function: FnDef) -> Snapshot {
    let mut f = entry(Def::Function(Function(DefId(2))), Ty::Unknown, None);
    f.syntax = Arc::new(function);
    Snapshot {
        defs: vec![
            entry(Def::Struct(Struct(DefId(0))), adt(0, "S"), Some("S")),
            entry(Def::Enum(Enum(DefId(1))), adt(1, "[unnamed enum]"), None),
            f,
            entry(Def::Module(Module(5)), Ty::Unknown, None),
            entry(Def::Item, Ty::Unknown, None),
        ],
        paths: vec![
            PathEntry {
                module: ROOT,
                path: hir_path(&["S"]),
                found: Ok(PerNs { types: Some(DefId(0)), values: None }),
            },
            PathEntry {
                module: ROOT,
                path: hir_path(&["m", "E"]),
                found: Ok(PerNs { types: Some(DefId(1)), values: Some(DefId(2)) }),
            },
            PathEntry {
                module: ROOT,
                path: hir_path(&["f"]),
                found: Ok(PerNs { types: None, values: Some(DefId(2)) }),
            },
            PathEntry { module: ROOT, path: hir_path(&["gone"]), found: Err(Canceled) },
        ],
    }
}

fn blank() -> FnDef {
    FnDef { param_list: None, ret_type: None, body: None }
}

#[test]
fn number_types_need_no_database() {
    let empty = Snapshot { defs: vec![], paths: vec![] };
    let lower = |name: &str| Ty::new(&empty, &ROOT, &path_type(&[name]));
    assert_eq!(lower("i32"), Ok(Ty::Int(IntTy::I32)));
    assert_eq!(lower("usize"), Ok(Ty::Uint(UintTy::Usize)));
    assert_eq!(lower("f32"), Ok(Ty::Float(FloatTy::F32)));
    // `bool` is looked up like any other name
    assert_eq!(lower("bool"), Ok(Ty::Unknown));
}

#[test]
fn number_names_count_only_on_their_own() {
    let empty = Snapshot { defs: vec![], paths: vec![] };
    assert_eq!(Ty::new(&empty, &ROOT, &path_type(&["i32", "i32"])), Ok(Ty::Unknown));
    let rooted = AstPath {
        segment: None,
        lowered: Some(Path { kind: PathKind::Crate, segments: vec!["i32".to_owned()] }),
    };
    assert_eq!(Ty::new_from_ast_path(&empty, &ROOT, &rooted), Ok(Ty::Unknown));
}

#[test]
fn paths_are_resolved_as_types() {
    let db = program(blank());
    assert_eq!(Ty::new(&db, &ROOT, &path_type(&["S"])), Ok(adt(0, "S")));
    assert_eq!(Ty::new(&db, &ROOT, &path_type(&["m", "E"])), Ok(adt(1, "[unnamed enum]")));
    assert_eq!(Ty::new(&db, &Module(1), &path_type(&["S"])), Ok(Ty::Unknown));
    assert_eq!(Ty::new(&db, &ROOT, &path_type(&["f"])), Ok(Ty::Unknown));
    assert_eq!(Ty::new(&db, &ROOT, &path_type(&["gone"])), Err(Canceled));
}

#[test]
fn incomplete_types_are_unknown() {
    let db = program(blank());
    assert_eq!(Ty::new(&db, &ROOT, &TypeRef::PathType { path: None }), Ok(Ty::Unknown));
    let no_path = AstPath { segment: None, lowered: None };
    assert_eq!(Ty::new_from_ast_path(&db, &ROOT, &no_path), Ok(Ty::Unknown));
    assert_eq!(Ty::new_opt(&db, &ROOT, &None), Ok(Ty::Unknown));
    assert_eq!(Ty::new_opt(&db, &ROOT, &Some(TypeRef::NeverType)), Ok(Ty::Never));
}

#[test]
fn other_written_types_are_unknown() {
    let db = program(blank());
    let unknown = [
        TypeRef::ParenType,
        TypeRef::TupleType,
        TypeRef::PointerType,
        TypeRef::ArrayType,
        TypeRef::SliceType,
        TypeRef::ReferenceType,
        TypeRef::PlaceholderType,
        TypeRef::FnPointerType,
        TypeRef::ForType,
        TypeRef::ImplTraitType,
        TypeRef::DynTraitType,
    ];
    for type_ref in &unknown {
        assert_eq!(Ty::new(&db, &ROOT, type_ref), Ok(Ty::Unknown));
    }
    assert_eq!(Ty::new(&db, &ROOT, &TypeRef::NeverType), Ok(Ty::Never));
}

#[test]
fn a_function_is_typed_by_its_signature() {
    let db = program(FnDef {
        param_list: Some(ParamList {
            params: vec![param(Some(path_type(&["u8"]))), param(None), param(Some(path_type(&["S"])))],
        }),
        ret_type: Some(RetType { type_ref: Some(path_type(&["i64"])) }),
        body: None,
    });
    let ty = type_for_fn(&db, Function(DefId(2)));
    assert_eq!(ty.unwrap().to_string(), "fn(u8,[unknown],S,) -> i64");
}

#[test]
fn a_function_without_a_signature_has_unknown_result() {
    let db = program(blank());
    let ty = type_for_fn(&db, Function(DefId(2)));
    assert_eq!(ty.unwrap().to_string(), "fn() -> [unknown]");
    let db = program(FnDef { param_list: None, ret_type: Some(RetType { type_ref: None }), body: None });
    let ty = type_for_fn(&db, Function(DefId(2)));
    assert_eq!(ty.unwrap().to_string(), "fn() -> [unknown]");
}

#[test]
fn a_function_is_canceled_with_any_of_its_types() {
    let function = Function(DefId(2));
    let db = program(FnDef {
        param_list: Some(ParamList {
            params: vec![param(Some(path_type(&["u8"]))), param(Some(path_type(&["gone"])))],
        }),
        ret_type: None,
        body: None,
    });
    assert_eq!(type_for_fn(&db, function), Err(Canceled));
    let db = program(FnDef {
        param_list: None,
        ret_type: Some(RetType { type_ref: Some(path_type(&["gone"])) }),
        body: None,
    });
    assert_eq!(type_for_fn(&db, function), Err(Canceled));
    let mut db = program(blank());
    db.defs[2].module = Err(Canceled);
    assert_eq!(type_for_fn(&db, function), Err(Canceled));
}

#[test]
fn structs_and_enums_are_typed_by_name() {
    let mut db = program(blank());
    assert_eq!(type_for_struct(&db, Struct(DefId(0))), Ok(adt(0, "S")));
    assert_eq!(type_for_enum(&db, Enum(DefId(1))), Ok(adt(1, "[unnamed enum]")));
    db.defs[0].name = Ok(None);
    db.defs[1].name = Ok(Some("E".to_owned()));
    assert_eq!(type_for_struct(&db, Struct(DefId(0))), Ok(adt(0, "[unnamed struct]")));
    assert_eq!(type_for_enum(&db, Enum(DefId(1))), Ok(adt(1, "E")));
    db.defs[0].name = Err(Canceled);
    db.defs[1].name = Err(Canceled);
    assert_eq!(type_for_struct(&db, Struct(DefId(0))), Err(Canceled));
    assert_eq!(type_for_enum(&db, Enum(DefId(1))), Err(Canceled));
}

#[test]
fn definitions_are_typed_by_what_they_are() {
    let mut db = program(blank());
    assert_eq!(type_for_def(&db, DefId(0)), Ok(adt(0, "S")));
    assert_eq!(type_for_def(&db, DefId(1)), Ok(adt(1, "[unnamed enum]")));
    assert_eq!(type_for_def(&db, DefId(2)), type_for_fn(&db, Function(DefId(2))));
    assert_eq!(type_for_def(&db, DefId(3)), Ok(Ty::Unknown));
    assert_eq!(type_for_def(&db, DefId(4)), Ok(Ty::Unknown));
    assert_eq!(type_for_def(&db, DefId(9)), Err(Canceled));
    db.defs[0].def = Err(Canceled);
    assert_eq!(type_for_def(&db, DefId(0)), Err(Canceled));
}
