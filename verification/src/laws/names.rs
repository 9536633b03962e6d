//! What holds of paths, of struct literals and of field names inside a function.

use crate::ast::LocalSyntaxPtr;
use crate::ast::NameRef;
use crate::ast::Path as AstPath;
use crate::ast::ptr_to;
use crate::db::Canceled;
use crate::hir::Def;
use crate::hir::DefId;
use crate::hir::Path;
use crate::hir::PathKind;
use crate::hir::Struct;
use crate::hir::VariantModel;
use crate::index::digits_value;
use crate::laws::types::an_unlisted_use_denotes_nothing;
use crate::laws::types::first_field_of_a_name_is_found;
use crate::laws::types::first_use_of_a_name_counts;
use crate::laws::types::index_is_its_decimal_number;
use crate::laws::types::no_field_without_the_name;
use crate::laws::types::only_digits_are_an_index;
use crate::lower::struct_type;
use crate::rules::Env;
use crate::rules::field_type;
use crate::rules::path_expr_type;
use crate::rules::path_name;
use crate::rules::variant;
use crate::table::Types;
use crate::ty::TyModel;
use vstd::prelude::*;

verus! {

/// The name that stands for a path is that of its segment.
pub proof fn name_of_a_path_is_that_of_its_segment(path: AstPath)
    ensures
        match path.segment {
            Some(segment) => path_name(path) == segment.name_ref,
            None => path_name(path) is None,
        },
{
}

/// A path that is not there or that cannot be lowered denotes nothing, nor does a single name
/// that is missing from the source; and nothing is asked about them.
pub proof fn paths_that_denote_nothing(env: Env, types: Types, path: AstPath)
    ensures
        path_expr_type(env, types, None) == Ok::<_, Canceled>(None::<TyModel>),
        path.lowered is None ==> path_expr_type(env, types, Some(path)) == Ok::<_, Canceled>(
            None::<TyModel>,
        ),
        path.lowered matches Some(lowered) && lowered.kind == PathKind::Plain
            && lowered.segments@.len() == 1 && (path.segment matches Some(segment)
            ==> segment.name_ref is None) ==> path_expr_type(env, types, Some(path)) == Ok::<
            _,
            Canceled,
        >(None::<TyModel>),
{
}

/// A single name that is listed among the uses of local bindings has the type that is recorded
/// for the binding, whatever type that is; it has none where none is recorded. The first entry
/// for it counts, and no item is looked up.
pub proof fn local_name_has_the_recorded_type(
    env: Env,
    types: Types,
    path: AstPath,
    lowered: Path,
    name: NameRef,
    i: int,
)
    requires
        path.lowered == Some(lowered),
        lowered.kind == PathKind::Plain,
        lowered.segments@.len() == 1,
        path.segment matches Some(segment) && segment.name_ref == Some(name),
        0 <= i < env.scopes.len(),
        env.scopes[i].name == ptr_to(name.syntax),
        forall|j: int| 0 <= j < i ==> (#[trigger] env.scopes[j]).name != ptr_to(name.syntax),
    ensures
        ({
            let binding: LocalSyntaxPtr = env.scopes[i].entry.ptr;
            let ty = path_expr_type(env, types, Some(path));
            &&& types.contains_key(binding) ==> ty == Ok::<_, Canceled>(Some(types[binding]))
            &&& !types.contains_key(binding) ==> ty == Ok::<_, Canceled>(None::<TyModel>)
        }),
{
    first_use_of_a_name_counts(env.scopes, ptr_to(name.syntax), i);
}

/// A path that is no use of a local binding has the type of the definition that it denotes as a
/// value, whatever type that is. That holds of every path that is more than a single name,
/// wherever it starts and however many names it has, and of every single name that is not listed
/// among the uses of local bindings. It has no type where it denotes no value, and is canceled
/// where one of the two questions is.
pub proof fn item_path_has_the_type_of_its_definition(
    env: Env,
    types: Types,
    path: AstPath,
    lowered: Path,
)
    requires
        path.lowered == Some(lowered),
        lowered.kind == PathKind::Plain && lowered.segments@.len() == 1 ==> {
            &&& path.segment matches Some(segment) && segment.name_ref matches Some(name) && forall|
                j: int,
            |
                0 <= j < env.scopes.len() ==> (#[trigger] env.scopes[j]).name != ptr_to(name.syntax)
        },
    ensures
        ({
            let ty = path_expr_type(env, types, Some(path));
            match (env.answers.resolve_path)(env.module, lowered@) {
                Err(_) => ty is Err,
                Ok(found) => match found.values {
                    None => ty == Ok::<_, Canceled>(None::<TyModel>),
                    Some(def_id) => match (env.answers.type_for_def)(def_id) {
                        Ok(known) => ty == Ok::<_, Canceled>(Some(known)),
                        Err(_) => ty is Err,
                    },
                },
            }
        }),
{
    if lowered.kind == PathKind::Plain && lowered.segments@.len() == 1 {
        let name = path.segment->0.name_ref->0;
        an_unlisted_use_denotes_nothing(env.scopes, ptr_to(name.syntax));
    }
}

/// A struct literal names no struct where its path is not there, cannot be lowered, denotes no
/// type, or denotes anything but a struct. It is canceled where one of the questions is.
pub proof fn literals_that_name_no_struct(env: Env, path: AstPath)
    ensures
        ({
            let nothing = Ok::<_, Canceled>((TyModel::Unknown, None::<VariantModel>));
            &&& variant(env, None) == nothing
            &&& match path.lowered {
                None => variant(env, Some(path)) == nothing,
                Some(lowered) => match (env.answers.resolve_path)(env.module, lowered@) {
                    Err(_) => variant(env, Some(path)) is Err,
                    Ok(found) => match found.types {
                        None => variant(env, Some(path)) == nothing,
                        Some(def_id) => match (env.answers.resolve_def)(def_id) {
                            Err(_) => variant(env, Some(path)) is Err,
                            Ok(def) => def !is Struct ==> variant(env, Some(path)) == nothing,
                        },
                    },
                },
            }
        }),
{
}

/// A struct literal whose path denotes a struct names that struct: it has the type of the struct,
/// and all of its fields. It is canceled just where one of the two is.
pub proof fn literal_names_the_struct_of_its_path(
    env: Env,
    path: AstPath,
    lowered: Path,
    def_id: DefId,
    s: Struct,
)
    requires
        path.lowered == Some(lowered),
        (env.answers.resolve_path)(env.module, lowered@) matches Ok(found) && found.types == Some(
            def_id,
        ),
        (env.answers.resolve_def)(def_id) == Ok::<_, Canceled>(Def::Struct(s)),
    ensures
        ({
            let fields = (env.answers.struct_data)(def_id);
            let ty = struct_type(env.answers, s);
            let named = variant(env, Some(path));
            &&& named is Ok <==> fields is Ok && ty is Ok
            &&& named is Ok ==> {
                &&& named->Ok_0.0 == ty->Ok_0
                &&& named->Ok_0.1 == Some(fields->Ok_0)
            }
        }),
{
}

/// A field of a struct has the type of the first field of that name in the definition, whatever
/// type that is.
pub proof fn struct_field_has_its_declared_type(
    env: Env,
    receiver: TyModel,
    name: NameRef,
    s: Struct,
    fields: VariantModel,
    i: int,
)
    requires
        receiver is Adt,
        (env.answers.resolve_def)(receiver->def_id) == Ok::<_, Canceled>(Def::Struct(s)),
        (env.answers.struct_variant_data)(s) == Ok::<_, Canceled>(fields),
        0 <= i < fields.len(),
        fields[i].0 == name.text@,
        forall|j: int| 0 <= j < i ==> (#[trigger] fields[j]).0 != name.text@,
    ensures
        field_type(env, receiver, Some(name)) == Ok::<_, Canceled>(fields[i].1),
{
    first_field_of_a_name_is_found(fields, name.text@, i);
}

/// A field of a struct is unknown where the struct has no field of that name, and where the type
/// is not that of a struct; it is canceled where the definition or its fields are.
pub proof fn adt_field_without_a_type(env: Env, receiver: TyModel, name: NameRef)
    requires
        receiver is Adt,
    ensures
        ({
            let ty = field_type(env, receiver, Some(name));
            match (env.answers.resolve_def)(receiver->def_id) {
                Err(_) => ty is Err,
                Ok(Def::Struct(s)) => match (env.answers.struct_variant_data)(s) {
                    Err(_) => ty is Err,
                    Ok(fields) => (forall|j: int|
                        0 <= j < fields.len() ==> (#[trigger] fields[j]).0 != name.text@) ==> ty
                        == Ok::<_, Canceled>(TyModel::Unknown),
                },
                Ok(_) => ty == Ok::<_, Canceled>(TyModel::Unknown),
            }
        }),
{
    if let Ok(Def::Struct(s)) = (env.answers.resolve_def)(receiver->def_id) {
        if let Ok(fields) = (env.answers.struct_variant_data)(s) {
            if forall|j: int| 0 <= j < fields.len() ==> (#[trigger] fields[j]).0 != name.text@ {
                no_field_without_the_name(fields, name.text@);
            }
        }
    }
}

/// A field of a tuple has the type that stands at the written index, whatever type that is, and
/// an unknown one behind the end. The index is written in decimal digits, with or without a plus
/// sign before them.
pub proof fn tuple_field_has_the_type_at_its_index(
    env: Env,
    fields: Seq<TyModel>,
    name: NameRef,
    digits: Seq<char>,
)
    requires
        digits.len() > 0,
        forall|i: int| 0 <= i < digits.len() ==> '0' <= #[trigger] digits[i] <= '9',
        name.text@ == digits || name.text@ == seq!['+'] + digits,
        digits_value(digits) <= usize::MAX,
    ensures
        field_type(env, TyModel::Tuple(fields), Some(name)) == Ok::<_, Canceled>(
            if digits_value(digits) < fields.len() {
                fields[digits_value(digits)]
            } else {
                TyModel::Unknown
            },
        ),
{
    index_is_its_decimal_number(digits);
}

/// A field of a tuple is unknown where its name is no index: where anything but digits stands in
/// it, behind one plus sign at most, where there are no digits, and where the number is too large
/// to be one.
pub proof fn tuple_field_without_an_index(env: Env, fields: Seq<TyModel>, name: NameRef)
    requires
        ({
            ||| name.text@.len() == 0
            ||| name.text@ == seq!['+']
            ||| exists|i: int|
                0 <= i < name.text@.len() && !('0' <= #[trigger] name.text@[i] <= '9') && (i == 0
                    ==> name.text@[0] != '+')
            ||| {
                &&& forall|i: int|
                    0 <= i < name.text@.len() ==> '0' <= #[trigger] name.text@[i] <= '9'
                &&& digits_value(name.text@) > usize::MAX
            }
            ||| {
                &&& name.text@[0] == '+'
                &&& forall|i: int|
                    1 <= i < name.text@.len() ==> '0' <= #[trigger] name.text@[i] <= '9'
                &&& digits_value(name.text@.skip(1)) > usize::MAX
            }
        }),
    ensures
        field_type(env, TyModel::Tuple(fields), Some(name)) == Ok::<_, Canceled>(
            TyModel::Unknown,
        ),
{
    let text = name.text@;
    if exists|i: int|
        0 <= i < text.len() && !('0' <= #[trigger] text[i] <= '9') && (i == 0 ==> text[0]
            != '+') {
        let i = choose|i: int|
            0 <= i < text.len() && !('0' <= #[trigger] text[i] <= '9') && (i == 0 ==> text[0]
                != '+');
        only_digits_are_an_index(text, i);
    } else if text.len() == 0 {
        assert(text =~= Seq::<char>::empty());
        only_digits_are_an_index(seq!['x'], 0);
    } else if text == seq!['+'] {
        only_digits_are_an_index(seq!['x'], 0);
    }
}

/// Nothing is known of the field of any other type, nor of a field whose name is missing; and
/// nothing is asked about them.
pub proof fn fields_of_other_types_are_unknown(
    env: Env,
    receiver: TyModel,
    name: Option<NameRef>,
)
    requires
        receiver !is Adt && receiver !is Tuple || name is None,
    ensures
        field_type(env, receiver, name) == Ok::<_, Canceled>(TyModel::Unknown),
{
}

} // verus!
