//! From written types and from definitions to types.

use crate::ast::Param;
use crate::ast::Path as AstPath;
use crate::ast::TypeRef;
use crate::db::Answers;
use crate::db::Cancelable;
use crate::db::Canceled;
use crate::db::HirDatabase;
use crate::db::ty_answer;
use crate::hir::Def;
use crate::hir::DefId;
use crate::hir::Enum;
use crate::hir::Function;
use crate::hir::Module;
use crate::hir::Path;
use crate::hir::PathModel;
use crate::hir::Struct;
use crate::hir::lowered_path;
use crate::primitive::FloatTy;
use crate::primitive::IntTy;
use crate::primitive::UintTy;
use crate::ty::FnSig;
use crate::ty::Ty;
use crate::ty::TyModel;
use crate::ty::lemma_ty_model_lists;
use crate::ty::tys_model;
use std::sync::Arc;
use vstd::prelude::*;

verus! {

/// The number type of that name, where there is one.
pub open spec fn number_type(name: Seq<char>) -> Option<TyModel> {
    if let Some(ty) = IntTy::named(name) {
        Some(TyModel::Int(ty))
    } else if let Some(ty) = UintTy::named(name) {
        Some(TyModel::Uint(ty))
    } else if let Some(ty) = FloatTy::named(name) {
        Some(TyModel::Float(ty))
    } else {
        None
    }
}

/// The type that a path denotes among the items that a module sees.
pub open spec fn item_type(
    answers: Answers,
    module: Module,
    path: PathModel,
) -> Cancelable<TyModel> {
    match (answers.resolve_path)(module, path) {
        Err(canceled) => Err(canceled),
        Ok(found) => match found.types {
            None => Ok(TyModel::Unknown),
            Some(def_id) => (answers.type_for_def)(def_id),
        },
    }
}

/// The type that a written path denotes. The name of a number type always denotes that type.
pub open spec fn path_type(answers: Answers, module: Module, path: AstPath) -> Cancelable<TyModel> {
    match lowered_path(path) {
        None => Ok(TyModel::Unknown),
        Some(lowered) => if lowered.is_ident() && number_type(lowered.segments[0]) is Some {
            Ok(number_type(lowered.segments[0])->0)
        } else {
            item_type(answers, module, lowered)
        },
    }
}

/// The type that is written. Of all but paths and the never type nothing is known yet.
pub open spec fn written_type(
    answers: Answers,
    module: Module,
    type_ref: TypeRef,
) -> Cancelable<TyModel> {
    match type_ref {
        TypeRef::NeverType => Ok(TyModel::Never),
        TypeRef::PathType { path: Some(path) } => path_type(answers, module, path),
        _ => Ok(TyModel::Unknown),
    }
}

/// The type that is written, or the unknown type where none is.
pub open spec fn written_type_opt(
    answers: Answers,
    module: Module,
    type_ref: Option<TypeRef>,
) -> Cancelable<TyModel> {
    match type_ref {
        Some(written) => written_type(answers, module, written),
        None => Ok(TyModel::Unknown),
    }
}

impl Ty {
    /// The type that a written path denotes.
    pub fn new_from_ast_path(db: &impl HirDatabase, module: &Module, path: &AstPath) -> (ty:
        Cancelable<Ty>)
        ensures
            ty_answer(ty) == path_type(db.answers(), *module, *path),
    {
        let path = match Path::from_ast(path) {
            Some(p) => p,
            None => return Ok(Ty::Unknown),
        };
        if path.is_ident() {
            let name = path.segments[0].as_str();
            assert(path@.segments[0] == name@);
            if let Some(int_ty) = IntTy::from_string(name) {
                return Ok(Ty::Int(int_ty));
            } else if let Some(uint_ty) = UintTy::from_string(name) {
                return Ok(Ty::Uint(uint_ty));
            } else if let Some(float_ty) = FloatTy::from_string(name) {
                return Ok(Ty::Float(float_ty));
            }
        }
        // Resolve in module (in type namespace)

        let resolved = match db.resolve_path(*module, path)?.take_types() {
            Some(r) => r,
            None => return Ok(Ty::Unknown),
        };
        let ty = db.type_for_def(resolved)?;
        Ok(ty)
    }

    /// The type that is written, where one is.
    pub fn new_opt(db: &impl HirDatabase, module: &Module, node: &Option<TypeRef>) -> (ty:
        Cancelable<Ty>)
        ensures
            ty_answer(ty) == written_type_opt(db.answers(), *module, *node),
    {
        match node {
            Some(n) => Ty::new(db, module, n),
            None => Ok(Ty::Unknown),
        }
    }

    /// The type that is written.
    pub fn new(db: &impl HirDatabase, module: &Module, node: &TypeRef) -> (ty: Cancelable<Ty>)
        ensures
            ty_answer(ty) == written_type(db.answers(), *module, *node),
    {
        Ok(
            match node {
                TypeRef::ParenType => Ty::Unknown,
                TypeRef::TupleType => Ty::Unknown,
                TypeRef::NeverType => Ty::Never,
                TypeRef::PathType { path } => match path {
                    Some(path) => Ty::new_from_ast_path(db, module, path)?,
                    None => Ty::Unknown,
                },
                TypeRef::PointerType => Ty::Unknown,
                TypeRef::ArrayType => Ty::Unknown,
                TypeRef::SliceType => Ty::Unknown,
                TypeRef::ReferenceType => Ty::Unknown,
                TypeRef::PlaceholderType => Ty::Unknown,
                TypeRef::FnPointerType => Ty::Unknown,
                TypeRef::ForType => Ty::Unknown,
                TypeRef::ImplTraitType => Ty::Unknown,
                TypeRef::DynTraitType => Ty::Unknown,
            },
        )
    }
}

/// The written types of parameters, each unknown where none is written; canceled where one of
/// them is.
pub open spec fn param_types(
    answers: Answers,
    module: Module,
    params: Seq<Param>,
) -> Cancelable<Seq<TyModel>> {
    let tys = params.map_values(|param: Param| written_type_opt(answers, module, param.type_ref));
    if forall|i: int| 0 <= i < tys.len() ==> (#[trigger] tys[i]) is Ok {
        Ok(tys.map_values(|ty: Cancelable<TyModel>| ty->Ok_0))
    } else {
        Err(Canceled)
    }
}

/// The parameters of a function, none where there is no list of them.
pub open spec fn params_of(answers: Answers, f: Function) -> Seq<Param> {
    match (answers.fn_syntax)(f).param_list {
        Some(list) => list.params@,
        None => Seq::empty(),
    }
}

/// The written result type of a function, where there is one.
pub open spec fn ret_type_of(answers: Answers, f: Function) -> Option<TypeRef> {
    match (answers.fn_syntax)(f).ret_type {
        Some(ret_type) => ret_type.type_ref,
        None => None,
    }
}

/// The type of a function: a pointer to a function from its parameters' types to its result's.
pub open spec fn fn_type(answers: Answers, f: Function) -> Cancelable<TyModel> {
    match (answers.fn_module)(f) {
        Err(canceled) => Err(canceled),
        Ok(module) => match (
            param_types(answers, module, params_of(answers, f)),
            written_type_opt(answers, module, ret_type_of(answers, f)),
        ) {
            (Ok(input), Ok(output)) => Ok(TyModel::FnPtr { input, output: Box::new(output) }),
            _ => Err(Canceled),
        },
    }
}

/// The type of a struct or an enum: its identity, with its name or a placeholder for that.
pub open spec fn adt_type(
    def_id: DefId,
    name: Cancelable<Option<Seq<char>>>,
    unnamed: Seq<char>,
) -> Cancelable<TyModel> {
    match name {
        Err(canceled) => Err(canceled),
        Ok(Some(name)) => Ok(TyModel::Adt { def_id, name }),
        Ok(None) => Ok(TyModel::Adt { def_id, name: unnamed }),
    }
}

/// The type of a struct.
pub open spec fn struct_type(answers: Answers, s: Struct) -> Cancelable<TyModel> {
    adt_type(s.0, (answers.struct_name)(s), "[unnamed struct]"@)
}

/// The type of an enum.
pub open spec fn enum_type(answers: Answers, e: Enum) -> Cancelable<TyModel> {
    adt_type(e.0, (answers.enum_name)(e), "[unnamed enum]"@)
}

/// The type of a definition. A module has none, nor has an item that is not understood.
pub open spec fn def_type(answers: Answers, def_id: DefId) -> Cancelable<TyModel> {
    match (answers.resolve_def)(def_id) {
        Err(canceled) => Err(canceled),
        Ok(Def::Module(_)) => Ok(TyModel::Unknown),
        Ok(Def::Function(f)) => fn_type(answers, f),
        Ok(Def::Struct(s)) => struct_type(answers, s),
        Ok(Def::Enum(e)) => enum_type(answers, e),
        Ok(Def::Item) => Ok(TyModel::Unknown),
    }
}

/// Lowers the types of parameters.
fn lower_params(db: &impl HirDatabase, module: &Module, params: &Vec<Param>) -> (tys: Cancelable<
    Vec<Ty>,
>)
    ensures
        match tys {
            Ok(tys) => param_types(db.answers(), *module, params@) == Ok::<_, Canceled>(
                tys_model(tys@),
            ),
            Err(canceled) => param_types(db.answers(), *module, params@) == Err::<
                Seq<TyModel>,
                _,
            >(canceled),
        },
{
    let ghost answered = params@.map_values(
        |param: Param| written_type_opt(db.answers(), *module, param.type_ref),
    );
    let mut tys: Vec<Ty> = Vec::new();
    let mut i: usize = 0;
    while i < params.len()
        invariant
            i <= params.len(),
            tys.len() == i,
            answered == params@.map_values(
                |param: Param| written_type_opt(db.answers(), *module, param.type_ref),
            ),
            forall|j: int| 0 <= j < i ==> #[trigger] answered[j] == Ok::<_, Canceled>(tys@[j]@),
        decreases params.len() - i,
    {
        let ty = Ty::new_opt(db, module, &params[i].type_ref);
        assert(answered[i as int] == ty_answer(ty));
        match ty {
            Ok(ty) => tys.push(ty),
            Err(canceled) => return Err(canceled),
        }
        i = i + 1;
    }
    assert(answered.map_values(|ty: Cancelable<TyModel>| ty->Ok_0) =~= tys_model(tys@));
    Ok(tys)
}

/// The type of a function.
pub fn type_for_fn(db: &impl HirDatabase, f: Function) -> (ty: Cancelable<Ty>)
    ensures
        ty_answer(ty) == fn_type(db.answers(), f),
{
    broadcast use lemma_ty_model_lists;

    let node = db.fn_syntax(f);
    let module = db.fn_module(f)?;
    // Type parameters are ignored for now
    let input = match &node.param_list {
        Some(param_list) => lower_params(db, &module, &param_list.params)?,
        None => {
            assert(param_types(db.answers(), module, Seq::empty())->Ok_0 =~= Seq::empty());
            let none: Vec<Ty> = Vec::new();
            assert(tys_model(none@) =~= Seq::empty());
            none
        },
    };
    let output = match &node.ret_type {
        Some(ret_type) => Ty::new_opt(db, &module, &ret_type.type_ref)?,
        None => Ty::Unknown,
    };
    let sig = FnSig { input, output };
    Ok(Ty::FnPtr(Arc::new(sig)))
}

/// The type of a struct.
pub fn type_for_struct(db: &impl HirDatabase, s: Struct) -> (ty: Cancelable<Ty>)
    ensures
        ty_answer(ty) == struct_type(db.answers(), s),
{
    let name = match db.struct_name(s)? {
        Some(name) => name,
        None => "[unnamed struct]".to_owned(),
    };
    Ok(Ty::Adt { def_id: s.def_id(), name })
}

/// The type of an enum.
pub fn type_for_enum(db: &impl HirDatabase, s: Enum) -> (ty: Cancelable<Ty>)
    ensures
        ty_answer(ty) == enum_type(db.answers(), s),
{
    let name = match db.enum_name(s)? {
        Some(name) => name,
        None => "[unnamed enum]".to_owned(),
    };
    Ok(Ty::Adt { def_id: s.def_id(), name })
}

/// The type of a definition.
pub fn type_for_def(db: &impl HirDatabase, def_id: DefId) -> (ty: Cancelable<Ty>)
    ensures
        ty_answer(ty) == def_type(db.answers(), def_id),
{
    let def = db.resolve_def(def_id)?;
    match def {
        Def::Module(_) => Ok(Ty::Unknown),
        Def::Function(f) => type_for_fn(db, f),
        Def::Struct(s) => type_for_struct(db, s),
        Def::Enum(e) => type_for_enum(db, e),
        Def::Item => Ok(Ty::Unknown),
    }
}

} // verus!
