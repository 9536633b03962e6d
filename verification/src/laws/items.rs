//! What holds of the types that are written, and of those of definitions.

use crate::ast::Param;
use crate::ast::Path as AstPath;
use crate::ast::TypeRef;
use crate::db::Answers;
use crate::db::Canceled;
use crate::hir::Def;
use crate::hir::DefId;
use crate::hir::Enum;
use crate::hir::Function;
use crate::hir::Module;
use crate::hir::Path;
use crate::hir::PathKind;
use crate::hir::Struct;
use crate::lower::def_type;
use crate::lower::enum_type;
use crate::lower::fn_type;
use crate::lower::number_type;
use crate::lower::param_types;
use crate::lower::params_of;
use crate::lower::path_type;
use crate::lower::ret_type_of;
use crate::lower::struct_type;
use crate::lower::written_type;
use crate::lower::written_type_opt;
use crate::primitive::FloatTy;
use crate::primitive::IntTy;
use crate::primitive::UintTy;
use crate::primitive::float_name_round_trip;
use crate::primitive::int_name_round_trip;
use crate::primitive::named_type_has_that_name;
use crate::primitive::number_names_are_disjoint;
use crate::primitive::uint_name_round_trip;
use crate::ty::TyModel;
use vstd::prelude::*;

verus! {

/// Only the name of a number type names a number, and what it names is the type of that name.
pub proof fn number_names_name_numbers(name: Seq<char>)
    ensures
        number_type(name) is Some <==> {
            ||| exists|t: IntTy| #[trigger] t.name() == name
            ||| exists|t: UintTy| #[trigger] t.name() == name
            ||| exists|t: FloatTy| #[trigger] t.name() == name
        },
        forall|t: IntTy| #[trigger] t.name() == name ==> number_type(name) == Some(TyModel::Int(t)),
        forall|t: UintTy| #[trigger]
            t.name() == name ==> number_type(name) == Some(TyModel::Uint(t)),
        forall|t: FloatTy| #[trigger]
            t.name() == name ==> number_type(name) == Some(TyModel::Float(t)),
{
    named_type_has_that_name(name);
    number_names_are_disjoint(name);
    assert forall|t: IntTy| #[trigger] t.name() == name implies number_type(name) == Some(
        TyModel::Int(t),
    ) by {
        int_name_round_trip(t);
    }
    assert forall|t: UintTy| #[trigger] t.name() == name implies number_type(name) == Some(
        TyModel::Uint(t),
    ) by {
        uint_name_round_trip(t);
    }
    assert forall|t: FloatTy| #[trigger] t.name() == name implies number_type(name) == Some(
        TyModel::Float(t),
    ) by {
        float_name_round_trip(t);
    }
}

/// The never type is what is written for it. Of a type that is neither that nor a path, of a
/// path that is missing, and of a type that is not written, nothing is known; and no question is
/// asked about any of them.
pub proof fn written_types_that_are_no_paths(answers: Answers, module: Module, type_ref: TypeRef)
    requires
        type_ref matches TypeRef::PathType { path } ==> path is None,
    ensures
        written_type(answers, module, type_ref) == Ok::<_, Canceled>(
            if type_ref is NeverType {
                TyModel::Never
            } else {
                TyModel::Unknown
            },
        ),
        written_type_opt(answers, module, None) == Ok::<_, Canceled>(TyModel::Unknown),
        written_type_opt(answers, module, Some(type_ref)) == written_type(
            answers,
            module,
            type_ref,
        ),
{
}

/// A written path has the type of the definition that it denotes as a type. That holds of every
/// path, wherever it starts and however many names it has, unless it is the single name of a
/// number type. It is unknown where the path denotes no type, and canceled where one of the two
/// questions is.
pub proof fn written_path_has_the_type_it_denotes(
    answers: Answers,
    module: Module,
    path: AstPath,
    lowered: Path,
)
    requires
        path.lowered == Some(lowered),
        lowered.kind == PathKind::Plain && lowered.segments@.len() == 1 ==> {
            &&& forall|t: IntTy| #[trigger] t.name() != lowered.segments@[0]@
            &&& forall|t: UintTy| #[trigger] t.name() != lowered.segments@[0]@
            &&& forall|t: FloatTy| #[trigger] t.name() != lowered.segments@[0]@
        },
    ensures
        ({
            let ty = written_type_opt(
                answers,
                module,
                Some(TypeRef::PathType { path: Some(path) }),
            );
            let found = (answers.resolve_path)(module, lowered@);
            &&& written_type(answers, module, TypeRef::PathType { path: Some(path) }) == ty
            &&& path_type(answers, module, path) == ty
            &&& found is Err ==> ty is Err
            &&& found matches Ok(found) ==> match found.types {
                Some(def_id) => ty == (answers.type_for_def)(def_id),
                None => ty == Ok::<_, Canceled>(TyModel::Unknown),
            }
        }),
{
    if lowered@.segments.len() == 1 {
        assert(lowered@.segments[0] == lowered.segments@[0]@);
        number_names_name_numbers(lowered@.segments[0]);
    }
}

/// The single name of a number type denotes that type, whatever the database knows; and a path
/// that cannot be lowered denotes an unknown type.
pub proof fn written_number_is_that_number(
    answers: Answers,
    module: Module,
    path: AstPath,
    int_ty: IntTy,
    uint_ty: UintTy,
    float_ty: FloatTy,
)
    ensures
        ({
            let ty = written_type(answers, module, TypeRef::PathType { path: Some(path) });
            &&& path_type(answers, module, path) == ty
            &&& match path.lowered {
                None => ty == Ok::<_, Canceled>(TyModel::Unknown),
                Some(lowered) => lowered.kind == PathKind::Plain && lowered.segments@.len() == 1
                    ==> {
                    let name = lowered.segments@[0]@;
                    &&& name == int_ty.name() ==> ty == Ok::<_, Canceled>(TyModel::Int(int_ty))
                    &&& name == uint_ty.name() ==> ty == Ok::<_, Canceled>(TyModel::Uint(uint_ty))
                    &&& name == float_ty.name() ==> ty == Ok::<_, Canceled>(
                        TyModel::Float(float_ty),
                    )
                },
            }
        }),
{
    if let Some(lowered) = path.lowered {
        if lowered@.segments.len() == 1 {
            assert(lowered@.segments[0] == lowered.segments@[0]@);
            number_names_name_numbers(lowered@.segments[0]);
        }
    }
}

/// The type of a function is read off its signature: each parameter counts with the type that is
/// written at it, in order, be there a pattern or not, and the result with the one that is
/// written for it. All of them are seen from the module that the function stands in. The type
/// is canceled just where one of them is, or where that module is not told.
pub proof fn function_type_is_read_off_its_signature(
    answers: Answers,
    f: Function,
    params: Seq<Param>,
    result: Option<TypeRef>,
)
    requires
        match (answers.fn_syntax)(f).param_list {
            Some(list) => params == list.params@,
            None => params.len() == 0,
        },
        match (answers.fn_syntax)(f).ret_type {
            Some(ret_type) => result == ret_type.type_ref,
            None => result is None,
        },
    ensures
        (answers.fn_module)(f) is Err ==> fn_type(answers, f) is Err,
        (answers.fn_module)(f) matches Ok(module) ==> {
            &&& fn_type(answers, f) is Ok <==> {
                &&& forall|i: int|
                    0 <= i < params.len() ==> written_type_opt(
                        answers,
                        module,
                        (#[trigger] params[i]).type_ref,
                    ) is Ok
                &&& written_type_opt(answers, module, result) is Ok
            }
            &&& fn_type(answers, f) matches Ok(ty) ==> {
                &&& ty is FnPtr
                &&& ty->input.len() == params.len()
                &&& forall|i: int|
                    0 <= i < params.len() ==> Ok::<_, Canceled>(#[trigger] ty->input[i])
                        == written_type_opt(answers, module, params[i].type_ref)
                &&& Ok::<_, Canceled>(*ty->output) == written_type_opt(answers, module, result)
            }
        },
{
    assert(params_of(answers, f) =~= params);
    if let Ok(module) = (answers.fn_module)(f) {
        lemma_param_types(answers, module, params);
    }
}

/// The types of parameters are the written ones, one by one.
proof fn lemma_param_types(answers: Answers, module: Module, params: Seq<Param>)
    ensures
        param_types(answers, module, params) is Ok <==> forall|i: int|
            0 <= i < params.len() ==> written_type_opt(
                answers,
                module,
                (#[trigger] params[i]).type_ref,
            ) is Ok,
        param_types(answers, module, params) matches Ok(tys) ==> {
            &&& tys.len() == params.len()
            &&& forall|i: int|
                0 <= i < params.len() ==> Ok::<_, Canceled>(#[trigger] tys[i]) == written_type_opt(
                    answers,
                    module,
                    params[i].type_ref,
                )
        },
{
    let tys = params.map_values(|param: Param| written_type_opt(answers, module, param.type_ref));
    assert forall|i: int| 0 <= i < params.len() implies #[trigger] tys[i] == written_type_opt(
        answers,
        module,
        params[i].type_ref,
    ) by {}
    if param_types(answers, module, params) is Ok {
        assert forall|i: int| 0 <= i < params.len() implies written_type_opt(
            answers,
            module,
            (#[trigger] params[i]).type_ref,
        ) is Ok by {
            assert(tys[i] is Ok);
        }
    } else {
        let i = choose|i: int| 0 <= i < tys.len() && !((#[trigger] tys[i]) is Ok);
        assert(written_type_opt(answers, module, params[i].type_ref) is Err);
    }
}

/// The parameters of a function and its result are those that it is written with.
pub proof fn signature_is_as_written(answers: Answers, f: Function)
    ensures
        match (answers.fn_syntax)(f).param_list {
            Some(list) => params_of(answers, f) == list.params@,
            None => params_of(answers, f).len() == 0,
        },
        match (answers.fn_syntax)(f).ret_type {
            Some(ret_type) => ret_type_of(answers, f) == ret_type.type_ref,
            None => ret_type_of(answers, f) is None,
        },
{
}

/// The type of a struct is told by its identity and its name. One without a name is displayed as
/// such; one whose name is not told has no type.
pub proof fn struct_type_has_its_identity_and_name(answers: Answers, s: Struct)
    ensures
        match (answers.struct_name)(s) {
            Ok(Some(name)) => struct_type(answers, s) == Ok::<_, Canceled>(
                TyModel::Adt { def_id: s.0, name },
            ),
            Ok(None) => struct_type(answers, s) == Ok::<_, Canceled>(
                TyModel::Adt {
                    def_id: s.0,
                    name: seq!['[', 'u', 'n', 'n', 'a', 'm', 'e', 'd', ' '] + seq![
                        's',
                        't',
                        'r',
                        'u',
                        'c',
                        't',
                        ']',
                    ],
                },
            ),
            Err(_) => struct_type(answers, s) is Err,
        },
{
    reveal_strlit("[unnamed struct]");
    assert("[unnamed struct]"@ =~= seq!['[', 'u', 'n', 'n', 'a', 'm', 'e', 'd', ' '] + seq![
        's',
        't',
        'r',
        'u',
        'c',
        't',
        ']',
    ]);
}

/// The type of an enum is told by its identity and its name. One without a name is displayed as
/// such; one whose name is not told has no type.
pub proof fn enum_type_has_its_identity_and_name(answers: Answers, e: Enum)
    ensures
        match (answers.enum_name)(e) {
            Ok(Some(name)) => enum_type(answers, e) == Ok::<_, Canceled>(
                TyModel::Adt { def_id: e.0, name },
            ),
            Ok(None) => enum_type(answers, e) == Ok::<_, Canceled>(
                TyModel::Adt {
                    def_id: e.0,
                    name: seq!['[', 'u', 'n', 'n', 'a', 'm', 'e', 'd', ' '] + seq![
                        'e',
                        'n',
                        'u',
                        'm',
                        ']',
                    ],
                },
            ),
            Err(_) => enum_type(answers, e) is Err,
        },
{
    reveal_strlit("[unnamed enum]");
    assert("[unnamed enum]"@ =~= seq!['[', 'u', 'n', 'n', 'a', 'm', 'e', 'd', ' '] + seq![
        'e',
        'n',
        'u',
        'm',
        ']',
    ]);
}

/// A definition has the type of the function, the struct or the enum that it is. Of anything
/// else that it may be, the type is unknown.
pub proof fn definition_has_the_type_of_what_it_is(answers: Answers, def_id: DefId)
    ensures
        match (answers.resolve_def)(def_id) {
            Ok(Def::Function(f)) => def_type(answers, def_id) == fn_type(answers, f),
            Ok(Def::Struct(s)) => def_type(answers, def_id) == struct_type(answers, s),
            Ok(Def::Enum(e)) => def_type(answers, def_id) == enum_type(answers, e),
            Ok(Def::Module(_)) => def_type(answers, def_id) == Ok::<_, Canceled>(TyModel::Unknown),
            Ok(Def::Item) => def_type(answers, def_id) == Ok::<_, Canceled>(TyModel::Unknown),
            Err(_) => def_type(answers, def_id) is Err,
        },
{
}

} // verus!
