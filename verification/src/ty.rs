//! Types.

use crate::hir::DefId;
use crate::primitive::FloatTy;
use crate::primitive::IntTy;
use crate::primitive::UintTy;
use std::sync::Arc;
use vstd::prelude::*;
use vstd::std_specs::cmp::PartialEqSpecImpl;

verus! {

/// A type.
#[derive(Eq, Hash, Debug)]
pub enum Ty {
    /// The primitive boolean type. Written as `bool`.
    Bool,

    /// The primitive character type; holds a Unicode scalar value
    /// (a non-surrogate code point).  Written as `char`.
    Char,

    /// A primitive signed integer type. For example, `i32`.
    Int(IntTy),

    /// A primitive unsigned integer type. For example, `u32`.
    Uint(UintTy),

    /// A primitive floating-point type. For example, `f64`.
    Float(FloatTy),

    /// Structures, enumerations and unions.
    Adt {
        /// The definition of the struct or enum.
        def_id: DefId,
        /// The name, for displaying.
        name: String,
    },

    /// The pointee of a string slice. Written as `str`.
    Str,

    /// The pointee of an array slice.  Written as `[T]`.
    Slice(Arc<Ty>),

    /// A pointer to a function.  Written as `fn() -> i32`.
    FnPtr(Arc<FnSig>),

    /// The never type `!`.
    Never,

    /// A tuple type.  For example, `(i32, bool)`.
    Tuple(Vec<Ty>),

    /// A placeholder for a type which could not be computed; this is
    /// propagated to avoid useless error messages.
    Unknown,
}

/// The types of a function's parameters and of its result.
#[derive(Eq, Hash, Debug)]
pub struct FnSig {
    pub input: Vec<Ty>,
    pub output: Ty,
}

/// A type as a mathematical value: two types are the same when their models are equal.
pub enum TyModel {
    Bool,
    Char,
    Int(IntTy),
    Uint(UintTy),
    Float(FloatTy),
    Adt { def_id: DefId, name: Seq<char> },
    Str,
    Slice(Box<TyModel>),
    FnPtr { input: Seq<TyModel>, output: Box<TyModel> },
    Never,
    Tuple(Seq<TyModel>),
    Unknown,
}

/// The model of a type.
pub open spec fn ty_model(ty: Ty) -> TyModel
    decreases ty,
{
    match ty {
        Ty::Bool => TyModel::Bool,
        Ty::Char => TyModel::Char,
        Ty::Int(t) => TyModel::Int(t),
        Ty::Uint(t) => TyModel::Uint(t),
        Ty::Float(t) => TyModel::Float(t),
        Ty::Adt { def_id, name } => TyModel::Adt { def_id, name: name@ },
        Ty::Str => TyModel::Str,
        Ty::Slice(t) => TyModel::Slice(Box::new(ty_model(*t))),
        Ty::FnPtr(sig) => TyModel::FnPtr {
            input: Seq::new(
                sig.input@.len(),
                |i: int|
                    if 0 <= i < sig.input@.len() {
                        ty_model(sig.input@[i])
                    } else {
                        TyModel::Unknown
                    },
            ),
            output: Box::new(ty_model(sig.output)),
        },
        Ty::Never => TyModel::Never,
        Ty::Tuple(ts) => TyModel::Tuple(
            Seq::new(
                ts@.len(),
                |i: int|
                    if 0 <= i < ts@.len() {
                        ty_model(ts@[i])
                    } else {
                        TyModel::Unknown
                    },
            ),
        ),
        Ty::Unknown => TyModel::Unknown,
    }
}

impl View for Ty {
    type V = TyModel;

    open spec fn view(&self) -> TyModel {
        ty_model(*self)
    }
}

impl View for FnSig {
    type V = TyModel;

    open spec fn view(&self) -> TyModel {
        ty_model(Ty::FnPtr(Arc::new(*self)))
    }
}

/// The models of a list of types.
pub open spec fn tys_model(tys: Seq<Ty>) -> Seq<TyModel> {
    tys.map_values(|ty: Ty| ty@)
}

/// The model of a tuple, and of a function pointer, over the models of the types in it.
pub broadcast proof fn lemma_ty_model_lists(ty: Ty)
    ensures
        #![trigger ty_model(ty)]
        ty matches Ty::Tuple(ts) ==> ty_model(ty) == TyModel::Tuple(tys_model(ts@)),
        ty matches Ty::FnPtr(sig) ==> ty_model(ty) == (TyModel::FnPtr {
            input: tys_model(sig.input@),
            output: Box::new(sig.output@),
        }),
{
    match ty {
        Ty::Tuple(ts) => {
            assert(ty_model(ty)->Tuple_0 =~= tys_model(ts@));
        },
        Ty::FnPtr(sig) => {
            assert(ty_model(ty)->input =~= tys_model(sig.input@));
        },
        _ => {},
    }
}

/// Whether two types are the same.
fn same_ty(a: &Ty, b: &Ty) -> (same: bool)
    ensures
        same == (a@ == b@),
    decreases a,
{
    broadcast use lemma_ty_model_lists;

    match (a, b) {
        (Ty::Bool, Ty::Bool) => true,
        (Ty::Char, Ty::Char) => true,
        (Ty::Int(t), Ty::Int(u)) => *t == *u,
        (Ty::Uint(t), Ty::Uint(u)) => *t == *u,
        (Ty::Float(t), Ty::Float(u)) => *t == *u,
        (Ty::Adt { def_id, name }, Ty::Adt { def_id: other_id, name: other_name }) => {
            *def_id == *other_id && *name == *other_name
        },
        (Ty::Str, Ty::Str) => true,
        (Ty::Slice(t), Ty::Slice(u)) => same_ty(t, u),
        (Ty::FnPtr(sig), Ty::FnPtr(other)) => {
            same_tys(&sig.input, &other.input) && same_ty(&sig.output, &other.output)
        },
        (Ty::Never, Ty::Never) => true,
        (Ty::Tuple(ts), Ty::Tuple(us)) => same_tys(ts, us),
        (Ty::Unknown, Ty::Unknown) => true,
        _ => false,
    }
}

/// Whether two lists hold the same types in the same order.
fn same_tys(a: &Vec<Ty>, b: &Vec<Ty>) -> (same: bool)
    ensures
        same == (tys_model(a@) == tys_model(b@)),
    decreases a,
{
    if a.len() != b.len() {
        assert(tys_model(a@).len() != tys_model(b@).len());
        return false;
    }
    let mut i: usize = 0;
    while i < a.len()
        invariant
            i <= a.len(),
            a.len() == b.len(),
            forall|j: int| 0 <= j < i ==> (#[trigger] a@[j])@ == b@[j]@,
        decreases a.len() - i,
    {
        assert(decreases_to!(a => a@[i as int]));
        if !same_ty(&a[i], &b[i]) {
            assert(tys_model(a@)[i as int] != tys_model(b@)[i as int]);
            return false;
        }
        i = i + 1;
    }
    assert(tys_model(a@) =~= tys_model(b@));
    true
}

impl PartialEq for Ty {
    fn eq(&self, other: &Ty) -> (same: bool) {
        same_ty(self, other)
    }
}

impl PartialEqSpecImpl for Ty {
    open spec fn obeys_eq_spec() -> bool {
        true
    }

    open spec fn eq_spec(&self, other: &Ty) -> bool {
        self@ == other@
    }
}

impl PartialEq for FnSig {
    fn eq(&self, other: &FnSig) -> (same: bool) {
        broadcast use lemma_ty_model_lists;

        same_tys(&self.input, &other.input) && same_ty(&self.output, &other.output)
    }
}

impl PartialEqSpecImpl for FnSig {
    open spec fn obeys_eq_spec() -> bool {
        true
    }

    open spec fn eq_spec(&self, other: &FnSig) -> bool {
        self@ == other@
    }
}

/// Copies a list of types.
fn clone_tys(tys: &Vec<Ty>) -> (copy: Vec<Ty>)
    ensures
        tys_model(copy@) == tys_model(tys@),
    decreases tys,
{
    let mut copy: Vec<Ty> = Vec::new();
    let mut i: usize = 0;
    while i < tys.len()
        invariant
            i <= tys.len(),
            copy.len() == i,
            forall|j: int| 0 <= j < i ==> (#[trigger] copy@[j])@ == tys@[j]@,
        decreases tys.len() - i,
    {
        assert(decreases_to!(tys => tys@[i as int]));
        copy.push(clone_ty(&tys[i]));
        i = i + 1;
    }
    assert(tys_model(copy@) =~= tys_model(tys@));
    copy
}

/// Copies a type. What is behind an `Arc` is shared.
fn clone_ty(ty: &Ty) -> (copy: Ty)
    ensures
        copy@ == ty@,
    decreases ty,
{
    broadcast use lemma_ty_model_lists;

    match ty {
        Ty::Bool => Ty::Bool,
        Ty::Char => Ty::Char,
        Ty::Int(t) => Ty::Int(*t),
        Ty::Uint(t) => Ty::Uint(*t),
        Ty::Float(t) => Ty::Float(*t),
        Ty::Adt { def_id, name } => Ty::Adt { def_id: *def_id, name: name.clone() },
        Ty::Str => Ty::Str,
        Ty::Slice(t) => Ty::Slice(t.clone()),
        Ty::FnPtr(sig) => Ty::FnPtr(sig.clone()),
        Ty::Never => Ty::Never,
        Ty::Tuple(ts) => Ty::Tuple(clone_tys(ts)),
        Ty::Unknown => Ty::Unknown,
    }
}

impl Clone for Ty {
    fn clone(&self) -> (copy: Ty)
        ensures
            copy@ == self@,
    {
        clone_ty(self)
    }
}

impl Clone for FnSig {
    fn clone(&self) -> (copy: FnSig)
        ensures
            copy@ == self@,
    {
        broadcast use lemma_ty_model_lists;

        FnSig { input: clone_tys(&self.input), output: self.output.clone() }
    }
}

/// How a type is displayed.
pub open spec fn ty_text(ty: TyModel) -> Seq<char>
    decreases ty,
{
    match ty {
        TyModel::Bool => "bool"@,
        TyModel::Char => "char"@,
        TyModel::Int(t) => t.name(),
        TyModel::Uint(t) => t.name(),
        TyModel::Float(t) => t.name(),
        TyModel::Str => "str"@,
        TyModel::Slice(t) => "["@ + ty_text(*t) + "]"@,
        TyModel::Never => "!"@,
        TyModel::Tuple(ts) => "("@ + tys_text(ts) + ")"@,
        TyModel::FnPtr { input, output } => "fn("@ + tys_text(input) + ") -> "@ + ty_text(*output),
        TyModel::Adt { def_id, name } => name,
        TyModel::Unknown => "[unknown]"@,
    }
}

/// How a list of types is displayed: each of them with a comma behind it.
pub open spec fn tys_text(tys: Seq<TyModel>) -> Seq<char>
    decreases tys,
{
    if tys.len() == 0 {
        Seq::empty()
    } else {
        tys_text(tys.drop_last()) + ty_text(tys.last()) + ","@
    }
}

/// Writes a type behind what is already in `out`.
fn write_ty(ty: &Ty, out: &mut String)
    ensures
        final(out)@ == old(out)@ + ty_text(ty@),
    decreases ty,
{
    broadcast use lemma_ty_model_lists;

    match ty {
        Ty::Bool => out.append("bool"),
        Ty::Char => out.append("char"),
        Ty::Int(t) => out.append(t.ty_to_string()),
        Ty::Uint(t) => out.append(t.ty_to_string()),
        Ty::Float(t) => out.append(t.ty_to_string()),
        Ty::Str => out.append("str"),
        Ty::Slice(t) => {
            out.append("[");
            write_ty(t, out);
            out.append("]");
        },
        Ty::Never => out.append("!"),
        Ty::Tuple(ts) => {
            out.append("(");
            write_tys(ts, out);
            out.append(")");
        },
        Ty::FnPtr(sig) => {
            out.append("fn(");
            write_tys(&sig.input, out);
            out.append(") -> ");
            write_ty(&sig.output, out);
        },
        Ty::Adt { def_id: _, name } => out.append(name.as_str()),
        Ty::Unknown => out.append("[unknown]"),
    }
    assert(out@ =~= old(out)@ + ty_text(ty@));
}

/// Writes a list of types behind what is already in `out`.
fn write_tys(tys: &Vec<Ty>, out: &mut String)
    ensures
        final(out)@ == old(out)@ + tys_text(tys_model(tys@)),
    decreases tys,
{
    let ghost start = out@;
    let ghost models = tys_model(tys@);
    let mut i: usize = 0;
    while i < tys.len()
        invariant
            i <= tys.len(),
            models == tys_model(tys@),
            out@ =~= start + tys_text(models.take(i as int)),
        decreases tys.len() - i,
    {
        assert(decreases_to!(tys => tys@[i as int]));
        write_ty(&tys[i], out);
        out.append(",");
        assert(models.take(i + 1).drop_last() =~= models.take(i as int));
        assert(models.take(i + 1).last() == tys@[i as int]@);
        i = i + 1;
    }
    assert(models.take(i as int) =~= models);
}

/// The type of an expression of no value.
pub open spec fn unit_model() -> TyModel {
    TyModel::Tuple(Seq::empty())
}

impl Ty {
    /// The tuple of nothing.
    pub fn unit() -> (ty: Ty)
        ensures
            ty@ == unit_model(),
    {
        broadcast use lemma_ty_model_lists;

        let ty = Ty::Tuple(Vec::new());
        assert(ty@->Tuple_0 =~= Seq::empty());
        ty
    }

    /// How the type is displayed.
    pub fn to_string(&self) -> (text: String)
        ensures
            text@ == ty_text(self@),
    {
        let mut text = String::new();
        write_ty(self, &mut text);
        assert(text@ =~= ty_text(self@));
        text
    }
}

} // verus!
