//! The questions that type inference asks about the rest of a program.

use crate::ast::FnDef;
use crate::hir::Def;
use crate::hir::DefId;
use crate::hir::Enum;
use crate::hir::FnScopes;
use crate::hir::Function;
use crate::hir::LocalUse;
use crate::hir::Module;
use crate::hir::Path;
use crate::hir::PathModel;
use crate::hir::PerNs;
use crate::hir::Struct;
use crate::hir::StructData;
use crate::hir::VariantData;
use crate::hir::VariantModel;
use crate::ty::Ty;
use crate::ty::TyModel;
use std::sync::Arc;
use vstd::prelude::*;

verus! {

/// A question was not answered, because its answer is no longer wanted.
#[derive(Clone, Copy, PartialEq, Eq, Debug, Structural)]
pub struct Canceled;

/// An answer, unless the question was canceled.
pub type Cancelable<T> = Result<T, Canceled>;

/// The answers that a database gives.
pub struct Answers {
    /// What a path denotes, seen from a module.
    pub resolve_path: spec_fn(Module, PathModel) -> Cancelable<PerNs>,
    /// The type of a definition.
    pub type_for_def: spec_fn(DefId) -> Cancelable<TyModel>,
    /// What a definition is.
    pub resolve_def: spec_fn(DefId) -> Cancelable<Def>,
    /// The fields of the struct of that definition.
    pub struct_data: spec_fn(DefId) -> Cancelable<VariantModel>,
    /// The name of a struct.
    pub struct_name: spec_fn(Struct) -> Cancelable<Option<Seq<char>>>,
    /// The fields of a struct.
    pub struct_variant_data: spec_fn(Struct) -> Cancelable<VariantModel>,
    /// The name of an enum.
    pub enum_name: spec_fn(Enum) -> Cancelable<Option<Seq<char>>>,
    /// The module that a function stands in.
    pub fn_module: spec_fn(Function) -> Cancelable<Module>,
    /// How a function is written.
    pub fn_syntax: spec_fn(Function) -> FnDef,
    /// The uses of local bindings inside a function.
    pub fn_scopes: spec_fn(Function) -> Seq<LocalUse>,
}

/// The mathematical value of an answer that is a type.
pub open spec fn ty_answer(answer: Cancelable<Ty>) -> Cancelable<TyModel> {
    match answer {
        Ok(ty) => Ok(ty@),
        Err(canceled) => Err(canceled),
    }
}

/// The mathematical value of an answer that is an optional name.
pub open spec fn name_answer(answer: Cancelable<Option<String>>) -> Cancelable<Option<Seq<char>>> {
    match answer {
        Ok(Some(name)) => Ok(Some(name@)),
        Ok(None) => Ok(None),
        Err(canceled) => Err(canceled),
    }
}

/// The mathematical value of an answer that tells the fields of a struct.
pub open spec fn variant_answer(answer: Cancelable<Arc<VariantData>>) -> Cancelable<VariantModel> {
    match answer {
        Ok(data) => Ok(data@),
        Err(canceled) => Err(canceled),
    }
}

/// The mathematical value of an answer that tells what is known of a struct.
pub open spec fn struct_answer(answer: Cancelable<Arc<StructData>>) -> Cancelable<VariantModel> {
    match answer {
        Ok(data) => Ok(data.variant_data@),
        Err(canceled) => Err(canceled),
    }
}

/// A database that knows the program: one snapshot of it, which answers a question the same way
/// each time it is asked. A question that was canceled stays canceled.
pub trait HirDatabase {
    /// The answers that this database gives.
    spec fn answers(&self) -> Answers;

    fn resolve_path(&self, module: Module, path: &Path) -> (answer: Cancelable<PerNs>)
        ensures
            answer == (self.answers().resolve_path)(module, path@),
    ;

    fn type_for_def(&self, def_id: DefId) -> (answer: Cancelable<Ty>)
        ensures
            ty_answer(answer) == (self.answers().type_for_def)(def_id),
    ;

    fn resolve_def(&self, def_id: DefId) -> (answer: Cancelable<Def>)
        ensures
            answer == (self.answers().resolve_def)(def_id),
    ;

    fn struct_data(&self, def_id: DefId) -> (answer: Cancelable<Arc<StructData>>)
        ensures
            struct_answer(answer) == (self.answers().struct_data)(def_id),
    ;

    fn struct_name(&self, s: Struct) -> (answer: Cancelable<Option<String>>)
        ensures
            name_answer(answer) == (self.answers().struct_name)(s),
    ;

    fn struct_variant_data(&self, s: Struct) -> (answer: Cancelable<Arc<VariantData>>)
        ensures
            variant_answer(answer) == (self.answers().struct_variant_data)(s),
    ;

    fn enum_name(&self, e: Enum) -> (answer: Cancelable<Option<String>>)
        ensures
            name_answer(answer) == (self.answers().enum_name)(e),
    ;

    fn fn_module(&self, f: Function) -> (answer: Cancelable<Module>)
        ensures
            answer == (self.answers().fn_module)(f),
    ;

    fn fn_syntax(&self, f: Function) -> (answer: Arc<FnDef>)
        ensures
            *answer == (self.answers().fn_syntax)(f),
    ;

    fn fn_scopes(&self, f: Function) -> (answer: Arc<FnScopes>)
        ensures
            answer.uses@ == (self.answers().fn_scopes)(f),
    ;
}

} // verus!
