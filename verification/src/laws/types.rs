//! What holds of types, of their names and their display, and of what definitions are made of.

use crate::ast::LocalSyntaxPtr;
use crate::ast::Path as AstPath;
use crate::ast::SyntaxNodeRef;
use crate::ast::ptr_to;
use crate::hir::LocalUse;
use crate::hir::PathKind;
use crate::hir::PathModel;
use crate::hir::VariantData;
use crate::hir::VariantModel;
use crate::hir::field_named;
use crate::hir::local_entry;
use crate::hir::lowered_path;
use crate::index::digits_value;
use crate::index::is_digits;
use crate::index::written_index;
use crate::primitive::FloatTy;
use crate::primitive::IntTy;
use crate::primitive::UintTy;
use crate::rules::join;
use crate::ty::FnSig;
use crate::ty::Ty;
use crate::ty::TyModel;
use crate::ty::lemma_ty_model_lists;
use crate::ty::ty_text;
use crate::ty::tys_model;
use crate::ty::tys_text;
use std::sync::Arc;
use vstd::prelude::*;
use vstd::std_specs::cmp::PartialEqSpec;

verus! {

/// Two types that are both known agree only where they are the same type, and then on that type.
pub proof fn known_types_agree_only_with_themselves(a: TyModel, b: TyModel)
    requires
        a != TyModel::Unknown,
        b != TyModel::Unknown,
    ensures
        a == b ==> join(a, b) == Some(a),
        a != b ==> join(a, b) is None,
{
}

/// The model of a type is of the same kind as the type, and keeps everything in it.
pub proof fn model_keeps_the_type(ty: Ty)
    ensures
        ty@ is Bool <==> ty is Bool,
        ty@ is Char <==> ty is Char,
        ty@ is Str <==> ty is Str,
        ty@ is Never <==> ty is Never,
        ty@ is Unknown <==> ty is Unknown,
        ty@ is Int <==> ty is Int,
        ty@ is Uint <==> ty is Uint,
        ty@ is Float <==> ty is Float,
        ty@ is Adt <==> ty is Adt,
        ty@ is Slice <==> ty is Slice,
        ty@ is FnPtr <==> ty is FnPtr,
        ty@ is Tuple <==> ty is Tuple,
        ty matches Ty::Int(t) ==> ty@->Int_0 == t,
        ty matches Ty::Uint(t) ==> ty@->Uint_0 == t,
        ty matches Ty::Float(t) ==> ty@->Float_0 == t,
        ty matches Ty::Adt { def_id, name } ==> ty@->def_id == def_id && ty@->name == name@,
        ty matches Ty::Slice(t) ==> *ty@->Slice_0 == t@,
        ty matches Ty::Tuple(ts) ==> {
            &&& ty@->Tuple_0.len() == ts@.len()
            &&& forall|i: int| 0 <= i < ts@.len() ==> #[trigger] ty@->Tuple_0[i] == ts@[i]@
        },
        ty matches Ty::FnPtr(sig) ==> {
            &&& ty@->input.len() == sig.input@.len()
            &&& forall|i: int|
                0 <= i < sig.input@.len() ==> #[trigger] ty@->input[i] == sig.input@[i]@
            &&& *ty@->output == sig.output@
        },
{
    lemma_ty_model_lists(ty);
}

/// `==` on types, and on signatures, is equality of their models.
pub proof fn equality_is_equality_of_models(a: Ty, b: Ty, f: FnSig, g: FnSig)
    ensures
        Ty::obeys_eq_spec(),
        FnSig::obeys_eq_spec(),
        a.eq_spec(&b) <==> a@ == b@,
        f.eq_spec(&g) <==> {
            &&& f.input@.len() == g.input@.len()
            &&& forall|i: int| 0 <= i < f.input@.len() ==> (#[trigger] f.input@[i])@ == g.input@[i]@
            &&& f.output@ == g.output@
        },
{
    let a_sig = Ty::FnPtr(Arc::new(f));
    let b_sig = Ty::FnPtr(Arc::new(g));
    lemma_ty_model_lists(a_sig);
    lemma_ty_model_lists(b_sig);
    assert(f.input@.len() == tys_model(f.input@).len());
    assert(g.input@.len() == tys_model(g.input@).len());
    assert(forall|i: int|
        0 <= i < f.input@.len() ==> tys_model(f.input@)[i] == (#[trigger] f.input@[i])@);
    if f.input@.len() == g.input@.len() && (forall|i: int|
        0 <= i < f.input@.len() ==> (#[trigger] f.input@[i])@ == g.input@[i]@) {
        assert(tys_model(f.input@) =~= tys_model(g.input@));
    }
    if f.eq_spec(&g) {
        assert(tys_model(f.input@) == tys_model(g.input@));
        assert forall|i: int| 0 <= i < f.input@.len() implies (#[trigger] f.input@[i])@
            == g.input@[i]@ by {
            assert(tys_model(f.input@)[i] == tys_model(g.input@)[i]);
        }
    }
}

/// A signed integer type is written `i` with its width in bits behind it, or `isize`.
pub proof fn int_names_tell_the_width(ty: IntTy)
    ensures
        ty.name().len() > 1,
        ty.name()[0] == 'i',
        ty is Isize <==> ty.name().skip(1) == seq!['s', 'i', 'z', 'e'],
        ty !is Isize ==> {
            &&& is_digits(ty.name().skip(1))
            &&& ty.name()[1] != '0'
            &&& digits_value(ty.name().skip(1)) == match ty {
                IntTy::I8 => 8int,
                IntTy::I16 => 16,
                IntTy::I32 => 32,
                IntTy::I64 => 64,
                _ => 128,
            }
        },
{
    reveal_strlit("isize");
    reveal_strlit("i8");
    reveal_strlit("i16");
    reveal_strlit("i32");
    reveal_strlit("i64");
    reveal_strlit("i128");
    lemma_short_numbers();
    match ty {
        IntTy::Isize => assert(ty.name().skip(1) =~= seq!['s', 'i', 'z', 'e']),
        IntTy::I8 => assert(ty.name().skip(1) =~= seq!['8']),
        IntTy::I16 => assert(ty.name().skip(1) =~= seq!['1', '6']),
        IntTy::I32 => assert(ty.name().skip(1) =~= seq!['3', '2']),
        IntTy::I64 => assert(ty.name().skip(1) =~= seq!['6', '4']),
        IntTy::I128 => assert(ty.name().skip(1) =~= seq!['1', '2', '8']),
    }
}

/// An unsigned integer type is written `u` with its width in bits behind it, or `usize`.
pub proof fn uint_names_tell_the_width(ty: UintTy)
    ensures
        ty.name().len() > 1,
        ty.name()[0] == 'u',
        ty is Usize <==> ty.name().skip(1) == seq!['s', 'i', 'z', 'e'],
        ty !is Usize ==> {
            &&& is_digits(ty.name().skip(1))
            &&& ty.name()[1] != '0'
            &&& digits_value(ty.name().skip(1)) == match ty {
                UintTy::U8 => 8int,
                UintTy::U16 => 16,
                UintTy::U32 => 32,
                UintTy::U64 => 64,
                _ => 128,
            }
        },
{
    reveal_strlit("usize");
    reveal_strlit("u8");
    reveal_strlit("u16");
    reveal_strlit("u32");
    reveal_strlit("u64");
    reveal_strlit("u128");
    lemma_short_numbers();
    match ty {
        UintTy::Usize => assert(ty.name().skip(1) =~= seq!['s', 'i', 'z', 'e']),
        UintTy::U8 => assert(ty.name().skip(1) =~= seq!['8']),
        UintTy::U16 => assert(ty.name().skip(1) =~= seq!['1', '6']),
        UintTy::U32 => assert(ty.name().skip(1) =~= seq!['3', '2']),
        UintTy::U64 => assert(ty.name().skip(1) =~= seq!['6', '4']),
        UintTy::U128 => assert(ty.name().skip(1) =~= seq!['1', '2', '8']),
    }
}

/// A floating-point type is written `f` with its width in bits behind it.
pub proof fn float_names_tell_the_width(ty: FloatTy)
    ensures
        ty.name().len() > 1,
        ty.name()[0] == 'f',
        is_digits(ty.name().skip(1)),
        ty.name()[1] != '0',
        digits_value(ty.name().skip(1)) == match ty {
            FloatTy::F32 => 32int,
            FloatTy::F64 => 64,
        },
{
    reveal_strlit("f32");
    reveal_strlit("f64");
    lemma_short_numbers();
    match ty {
        FloatTy::F32 => assert(ty.name().skip(1) =~= seq!['3', '2']),
        FloatTy::F64 => assert(ty.name().skip(1) =~= seq!['6', '4']),
    }
}

/// The widths of numbers, read from their digits.
proof fn lemma_short_numbers()
    ensures
        digits_value(seq!['8']) == 8,
        digits_value(seq!['1', '6']) == 16,
        digits_value(seq!['3', '2']) == 32,
        digits_value(seq!['6', '4']) == 64,
        digits_value(seq!['1', '2', '8']) == 128,
{
    digits_are_decimal(Seq::empty(), '8');
    digits_are_decimal(Seq::empty(), '1');
    digits_are_decimal(Seq::empty(), '3');
    digits_are_decimal(Seq::empty(), '6');
    digits_are_decimal(seq!['1'], '6');
    digits_are_decimal(seq!['3'], '2');
    digits_are_decimal(seq!['6'], '4');
    digits_are_decimal(seq!['1'], '2');
    digits_are_decimal(seq!['1', '2'], '8');
    assert(seq!['8'] =~= Seq::<char>::empty().push('8'));
    assert(seq!['1'] =~= Seq::<char>::empty().push('1'));
    assert(seq!['3'] =~= Seq::<char>::empty().push('3'));
    assert(seq!['6'] =~= Seq::<char>::empty().push('6'));
    assert(seq!['1', '6'] =~= seq!['1'].push('6'));
    assert(seq!['3', '2'] =~= seq!['3'].push('2'));
    assert(seq!['6', '4'] =~= seq!['6'].push('4'));
    assert(seq!['1', '2'] =~= seq!['1'].push('2'));
    assert(seq!['1', '2', '8'] =~= seq!['1', '2'].push('8'));
}

/// No digits stand for zero, and a further digit multiplies by ten and is added.
pub proof fn digits_are_decimal(text: Seq<char>, digit: char)
    ensures
        digits_value(Seq::<char>::empty()) == 0,
        digits_value(text.push(digit)) == 10 * digits_value(text) + (digit as int - 48),
{
    assert(text.push(digit).drop_last() =~= text);
}

/// Where a text stands for an index, it is that number in decimal digits, with or without a plus
/// sign before them; and every such text stands for its number, as long as that fits.
pub proof fn index_is_its_decimal_number(digits: Seq<char>)
    requires
        digits.len() > 0,
        forall|i: int| 0 <= i < digits.len() ==> '0' <= #[trigger] digits[i] <= '9',
    ensures
        digits_value(digits) <= usize::MAX ==> {
            &&& written_index(digits) matches Some(n) && n == digits_value(digits)
            &&& written_index(seq!['+'] + digits) matches Some(n) && n == digits_value(digits)
        },
        digits_value(digits) > usize::MAX ==> {
            &&& written_index(digits) is None
            &&& written_index(seq!['+'] + digits) is None
        },
{
    assert((seq!['+'] + digits).skip(1) =~= digits);
    lemma_digits_value_is_not_negative(digits);
}

/// A text that holds anything but digits, behind one plus sign at most, stands for no index; nor
/// does one without any digit.
pub proof fn only_digits_are_an_index(text: Seq<char>, i: int)
    requires
        0 <= i < text.len(),
        !('0' <= text[i] <= '9'),
        i == 0 ==> text[0] != '+',
    ensures
        written_index(text) is None,
        written_index(Seq::<char>::empty()) is None,
        written_index(seq!['+']) is None,
{
    if text[0] == '+' {
        assert(text.skip(1)[i - 1] == text[i]);
    }
    assert(seq!['+'].skip(1) =~= Seq::<char>::empty());
}

/// Digits stand for a number that is not negative.
proof fn lemma_digits_value_is_not_negative(digits: Seq<char>)
    requires
        forall|i: int| 0 <= i < digits.len() ==> '0' <= #[trigger] digits[i] <= '9',
    ensures
        digits_value(digits) >= 0,
    decreases digits.len(),
{
    if digits.len() > 0 {
        assert('0' <= digits[digits.len() - 1] <= '9');
        assert forall|i: int| 0 <= i < digits.drop_last().len() implies '0'
            <= #[trigger] digits.drop_last()[i] <= '9' by {
            assert(digits.drop_last()[i] == digits[i]);
        }
        lemma_digits_value_is_not_negative(digits.drop_last());
    }
}

/// How each type is displayed, character by character, over how the types in it are.
pub proof fn types_are_displayed_as_they_are_written(ty: TyModel)
    ensures
        ty is Bool ==> ty_text(ty) == seq!['b', 'o', 'o', 'l'],
        ty is Char ==> ty_text(ty) == seq!['c', 'h', 'a', 'r'],
        ty is Str ==> ty_text(ty) == seq!['s', 't', 'r'],
        ty is Never ==> ty_text(ty) == seq!['!'],
        ty is Unknown ==> ty_text(ty) == seq!['[', 'u', 'n', 'k', 'n', 'o', 'w', 'n', ']'],
        ty matches TyModel::Int(t) ==> ty_text(ty) == t.name(),
        ty matches TyModel::Uint(t) ==> ty_text(ty) == t.name(),
        ty matches TyModel::Float(t) ==> ty_text(ty) == t.name(),
        ty matches TyModel::Adt { def_id: _, name } ==> ty_text(ty) == name,
        ty matches TyModel::Slice(t) ==> ty_text(ty) == seq!['['] + ty_text(*t) + seq![']'],
        ty matches TyModel::Tuple(ts) ==> ty_text(ty) == seq!['('] + tys_text(ts) + seq![')'],
        ty matches TyModel::FnPtr { input, output } ==> ty_text(ty) == seq!['f', 'n', '(']
            + tys_text(input) + seq![')', ' ', '-', '>', ' '] + ty_text(*output),
{
    reveal_strlit("bool");
    reveal_strlit("char");
    reveal_strlit("str");
    reveal_strlit("!");
    reveal_strlit("[unknown]");
    reveal_strlit("[");
    reveal_strlit("]");
    reveal_strlit("(");
    reveal_strlit(")");
    reveal_strlit("fn(");
    reveal_strlit(") -> ");
    assert("bool"@ =~= seq!['b', 'o', 'o', 'l']);
    assert("char"@ =~= seq!['c', 'h', 'a', 'r']);
    assert("str"@ =~= seq!['s', 't', 'r']);
    assert("!"@ =~= seq!['!']);
    assert("[unknown]"@ =~= seq!['[', 'u', 'n', 'k', 'n', 'o', 'w', 'n', ']']);
    assert("["@ =~= seq!['[']);
    assert("]"@ =~= seq![']']);
    assert("("@ =~= seq!['(']);
    assert(")"@ =~= seq![')']);
    assert("fn("@ =~= seq!['f', 'n', '(']);
    assert(") -> "@ =~= seq![')', ' ', '-', '>', ' ']);
}

/// A list of types is displayed type by type, in order: nothing for an empty one, the type with
/// a comma behind it for a single one, and the two texts in a row for two lists in a row.
pub proof fn lists_are_displayed_in_order(a: Seq<TyModel>, b: Seq<TyModel>, ty: TyModel)
    ensures
        tys_text(Seq::<TyModel>::empty()) == Seq::<char>::empty(),
        tys_text(seq![ty]) == ty_text(ty) + seq![','],
        tys_text(a + b) == tys_text(a) + tys_text(b),
    decreases b.len(),
{
    reveal_strlit(",");
    assert(","@ =~= seq![',']);
    assert(seq![ty].drop_last() =~= Seq::<TyModel>::empty());
    assert(tys_text(Seq::<TyModel>::empty()) =~= Seq::<char>::empty());
    assert(tys_text(seq![ty]) =~= ty_text(ty) + seq![',']);
    if b.len() == 0 {
        assert(a + b =~= a);
        assert(tys_text(a + b) =~= tys_text(a) + tys_text(b));
    } else {
        lists_are_displayed_in_order(a, b.drop_last(), ty);
        assert((a + b).drop_last() =~= a + b.drop_last());
        assert((a + b).last() == b.last());
        assert(tys_text(a + b) =~= tys_text(a) + tys_text(b));
    }
}

/// The pointer to a node tells its range and its kind; so two nodes with one pointer are alike.
pub proof fn pointers_tell_their_nodes(a: SyntaxNodeRef, b: SyntaxNodeRef)
    ensures
        ptr_to(a).range == a.range,
        ptr_to(a).kind == a.kind,
        ptr_to(a) == ptr_to(b) ==> a == b,
{
}

/// A path is a single name just where it starts nowhere in particular and has one segment.
pub proof fn single_names(path: PathModel)
    ensures
        path.is_ident() <==> exists|name: Seq<char>|
            path == (PathModel { kind: PathKind::Plain, segments: #[trigger] seq![name] }),
{
    if path.is_ident() {
        let name = path.segments[0];
        assert(path.segments =~= seq![name]);
    }
}

/// Lowering keeps a path as it is: its kind, and its segments one by one. A path that is not
/// lowered is no path.
pub proof fn lowering_keeps_the_path(path: AstPath)
    ensures
        lowered_path(path) is Some <==> path.lowered is Some,
        path.lowered matches Some(p) ==> {
            let lowered = lowered_path(path)->0;
            &&& lowered == p@
            &&& lowered.kind == p.kind
            &&& lowered.segments.len() == p.segments@.len()
            &&& forall|i: int|
                0 <= i < p.segments@.len() ==> #[trigger] lowered.segments[i] == p.segments@[i]@
        },
{
}

/// The fields of a struct are told in order, each with its name and its type.
pub proof fn fields_keep_name_and_type(data: VariantData, i: int)
    requires
        0 <= i < data.fields@.len(),
    ensures
        data@.len() == data.fields@.len(),
        data@[i].0 == data.fields@[i].name@,
        data@[i].1 == data.fields@[i].ty@,
{
}

/// A field is found by its name: the first one of that name counts.
pub proof fn first_field_of_a_name_is_found(fields: VariantModel, name: Seq<char>, i: int)
    requires
        0 <= i < fields.len(),
        fields[i].0 == name,
        forall|j: int| 0 <= j < i ==> (#[trigger] fields[j]).0 != name,
    ensures
        field_named(fields, name) == Some(fields[i].1),
    decreases fields.len(),
{
    if i > 0 {
        assert(fields[0].0 != name);
        let rest = fields.skip(1);
        assert forall|j: int| 0 <= j < i - 1 implies (#[trigger] rest[j]).0 != name by {
            assert(fields[j + 1].0 != name);
        }
        first_field_of_a_name_is_found(rest, name, i - 1);
    }
}

/// No field is found by a name that none has.
pub proof fn no_field_without_the_name(fields: VariantModel, name: Seq<char>)
    requires
        forall|j: int| 0 <= j < fields.len() ==> (#[trigger] fields[j]).0 != name,
    ensures
        field_named(fields, name) is None,
    decreases fields.len(),
{
    if fields.len() > 0 {
        assert(fields[0].0 != name);
        let rest = fields.skip(1);
        assert forall|j: int| 0 <= j < rest.len() implies (#[trigger] rest[j]).0 != name by {
            assert(fields[j + 1].0 != name);
        }
        no_field_without_the_name(rest, name);
    }
}

/// A use of a name denotes the binding that is listed for it: the first entry for it counts.
pub proof fn first_use_of_a_name_counts(uses: Seq<LocalUse>, name: LocalSyntaxPtr, i: int)
    requires
        0 <= i < uses.len(),
        uses[i].name == name,
        forall|j: int| 0 <= j < i ==> (#[trigger] uses[j]).name != name,
    ensures
        local_entry(uses, name) == Some(uses[i].entry),
    decreases uses.len(),
{
    if i > 0 {
        assert(uses[0].name != name);
        let rest = uses.skip(1);
        assert forall|j: int| 0 <= j < i - 1 implies (#[trigger] rest[j]).name != name by {
            assert(uses[j + 1].name != name);
        }
        first_use_of_a_name_counts(rest, name, i - 1);
    }
}

/// A use of a name that is not listed denotes no binding.
pub proof fn an_unlisted_use_denotes_nothing(uses: Seq<LocalUse>, name: LocalSyntaxPtr)
    requires
        forall|j: int| 0 <= j < uses.len() ==> (#[trigger] uses[j]).name != name,
    ensures
        local_entry(uses, name) is None,
    decreases uses.len(),
{
    if uses.len() > 0 {
        assert(uses[0].name != name);
        let rest = uses.skip(1);
        assert forall|j: int| 0 <= j < rest.len() implies (#[trigger] rest[j]).name != name by {
            assert(uses[j + 1].name != name);
        }
        an_unlisted_use_denotes_nothing(rest, name);
    }
}

} // verus!
