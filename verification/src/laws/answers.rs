//! What holds of the answers of a database, and of one that is held in memory.

use crate::ast::FnDef;
use crate::db::Canceled;
use crate::db::HirDatabase;
use crate::db::name_answer;
use crate::db::struct_answer;
use crate::db::ty_answer;
use crate::db::variant_answer;
use crate::hir::DefId;
use crate::hir::Enum;
use crate::hir::Function;
use crate::hir::Module;
use crate::hir::Path;
use crate::hir::PathModel;
use crate::hir::PerNs;
use crate::hir::Struct;
use crate::hir::StructData;
use crate::hir::VariantData;
use crate::infer::InferenceResult;
use crate::infer::literal_answer;
use crate::infer::opt_ty_answer;
use crate::infer::opt_ty_model;
use crate::infer::result_answer;
use crate::snapshot::DefEntry;
use crate::snapshot::PathEntry;
use crate::snapshot::Snapshot;
use crate::snapshot::listed_path;
use crate::ty::Ty;
use std::sync::Arc;
use vstd::prelude::*;

verus! {

/// An answer is told as it is given: a type by its model, a name by its characters, the fields
/// of a struct by theirs, and a cancellation as one.
pub proof fn answers_are_told_as_given(
    ty: Ty,
    name: String,
    data: Arc<VariantData>,
    known: Arc<StructData>,
    canceled: Canceled,
)
    ensures
        ty_answer(Ok(ty)) == Ok::<_, Canceled>(ty@),
        ty_answer(Err(canceled)) is Err,
        name_answer(Ok(Some(name))) == Ok::<_, Canceled>(Some(name@)),
        name_answer(Ok(None)) == Ok::<_, Canceled>(None::<Seq<char>>),
        name_answer(Err(canceled)) is Err,
        variant_answer(Ok(data)) == Ok::<_, Canceled>(data@),
        variant_answer(Err(canceled)) is Err,
        struct_answer(Ok(known)) == Ok::<_, Canceled>(known.variant_data@),
        struct_answer(Err(canceled)) is Err,
{
}

/// What is inferred is told as it is: an optional type by the model of the type, the struct of a
/// literal by the models of its type and of its fields, the types of a function by themselves, and
/// a cancellation as one.
pub proof fn results_are_told_as_given(
    ty: Ty,
    data: Arc<VariantData>,
    result: InferenceResult,
    canceled: Canceled,
)
    ensures
        opt_ty_model(Some(ty)) == Some(ty@),
        opt_ty_model(None) is None,
        opt_ty_answer(Ok(Some(ty))) == Ok::<_, Canceled>(Some(ty@)),
        opt_ty_answer(Ok(None)) matches Ok(told) && told is None,
        opt_ty_answer(Err(canceled)) is Err,
        literal_answer(Ok((ty, Some(data)))) == Ok::<_, Canceled>((ty@, Some(data@))),
        literal_answer(Ok((ty, None))) matches Ok(told) && told.0 == ty@ && told.1 is None,
        literal_answer(Err(canceled)) is Err,
        result_answer(Ok(result)) == Ok::<_, Canceled>(result@),
        result_answer(Err(canceled)) is Err,
{
}

/// What a database held in memory says of a definition is what is entered at its place.
pub proof fn snapshot_tells_what_is_entered(db: Snapshot, def_id: DefId)
    requires
        def_id.0 < db.defs@.len(),
    ensures
        ({
            let answers = db.answers();
            let entry: DefEntry = db.defs@[def_id.0 as int];
            &&& (answers.type_for_def)(def_id) == ty_answer(entry.ty)
            &&& (answers.resolve_def)(def_id) == entry.def
            &&& (answers.struct_data)(def_id) == variant_answer(entry.variant_data)
            &&& (answers.struct_name)(Struct(def_id)) == name_answer(entry.name)
            &&& (answers.struct_variant_data)(Struct(def_id)) == variant_answer(entry.variant_data)
            &&& (answers.enum_name)(Enum(def_id)) == name_answer(entry.name)
            &&& (answers.fn_module)(Function(def_id)) == entry.module
            &&& (answers.fn_syntax)(Function(def_id)) == *entry.syntax
            &&& (answers.fn_scopes)(Function(def_id)) == entry.scopes.uses@
        }),
{
}

/// Questions about a definition that is not entered are canceled; as a function it is blank.
pub proof fn snapshot_cancels_what_is_not_entered(db: Snapshot, def_id: DefId)
    requires
        def_id.0 >= db.defs@.len(),
    ensures
        ({
            let answers = db.answers();
            let syntax: FnDef = (answers.fn_syntax)(Function(def_id));
            &&& (answers.type_for_def)(def_id) is Err
            &&& (answers.resolve_def)(def_id) is Err
            &&& (answers.struct_data)(def_id) is Err
            &&& (answers.struct_name)(Struct(def_id)) is Err
            &&& (answers.struct_variant_data)(Struct(def_id)) is Err
            &&& (answers.enum_name)(Enum(def_id)) is Err
            &&& (answers.fn_module)(Function(def_id)) is Err
            &&& syntax.param_list is None
            &&& syntax.ret_type is None
            &&& syntax.body is None
            &&& (answers.fn_scopes)(Function(def_id)).len() == 0
        }),
{
}

/// What a database held in memory says of a path is what its first entry for it says.
pub proof fn first_entry_for_a_path_counts(db: Snapshot, module: Module, path: Path, i: int)
    requires
        0 <= i < db.paths@.len(),
        db.paths@[i].module == module,
        db.paths@[i].path@ == path@,
        forall|j: int|
            0 <= j < i ==> !((#[trigger] db.paths@[j]).module == module && db.paths@[j].path@
                == path@),
    ensures
        (db.answers().resolve_path)(module, path@) == db.paths@[i].found,
{
    lemma_first_entry(db.paths@, module, path@, i);
}

/// The first entry for a path counts.
proof fn lemma_first_entry(paths: Seq<PathEntry>, module: Module, path: PathModel, i: int)
    requires
        0 <= i < paths.len(),
        paths[i].module == module,
        paths[i].path@ == path,
        forall|j: int|
            0 <= j < i ==> !((#[trigger] paths[j]).module == module && paths[j].path@ == path),
    ensures
        listed_path(paths, module, path) == paths[i].found,
    decreases paths.len(),
{
    if i > 0 {
        assert(!(paths[0].module == module && paths[0].path@ == path));
        let rest = paths.skip(1);
        assert forall|j: int| 0 <= j < i - 1 implies !((#[trigger] rest[j]).module == module
            && rest[j].path@ == path) by {
            assert(!(paths[j + 1].module == module && paths[j + 1].path@ == path));
        }
        lemma_first_entry(rest, module, path, i - 1);
    }
}

/// Without an entry, nothing is found.
proof fn lemma_unlisted(
    paths: Seq<PathEntry>,
    module: Module,
    path: PathModel,
)
    requires
        forall|j: int|
            0 <= j < paths.len() ==> !((#[trigger] paths[j]).module == module && paths[j].path@
                == path),
    ensures
        listed_path(paths, module, path) == Ok::<_, Canceled>(PerNs { types: None, values: None }),
    decreases paths.len(),
{
    if paths.len() > 0 {
        assert(!(paths[0].module == module && paths[0].path@ == path));
        let rest = paths.skip(1);
        assert forall|j: int| 0 <= j < rest.len() implies !((#[trigger] rest[j]).module == module
            && rest[j].path@ == path) by {
            assert(!(paths[j + 1].module == module && paths[j + 1].path@ == path));
        }
        lemma_unlisted(rest, module, path);
    }
}

/// To a database held in memory, a path without an entry denotes nothing.
pub proof fn an_unlisted_path_denotes_nothing(db: Snapshot, module: Module, path: Path)
    requires
        forall|j: int|
            0 <= j < db.paths@.len() ==> !((#[trigger] db.paths@[j]).module == module
                && db.paths@[j].path@ == path@),
    ensures
        (db.answers().resolve_path)(module, path@) == Ok::<_, Canceled>(
            PerNs { types: None, values: None },
        ),
{
    lemma_unlisted(db.paths@, module, path@);
}

} // verus!
