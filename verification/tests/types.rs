use hir_ty::hir::DefId;
use hir_ty::primitive::{FloatTy, IntTy, UintTy};
use hir_ty::ty::{FnSig, Ty};
use std::sync::Arc;

fn adt(id: u32, name: &str) -> Ty {
    Ty::Adt { def_id: DefId(id), name: name.to_owned() }
}

fn fn_ptr(input: Vec<Ty>, output: Ty) -> Ty {
    Ty::FnPtr(Arc::new(FnSig { input, output }))
}

#[test]
fn displays_plain_types() {
    assert_eq!(Ty::Bool.to_string(), "bool");
    assert_eq!(Ty::Char.to_string(), "char");
    assert_eq!(Ty::Str.to_string(), "str");
    assert_eq!(Ty::Never.to_string(), "!");
    assert_eq!(Ty::Unknown.to_string(), "[unknown]");
    assert_eq!(Ty::Int(IntTy::I128).to_string(), "i128");
    assert_eq!(Ty::Uint(UintTy::Usize).to_string(), "usize");
    assert_eq!(Ty::Float(FloatTy::F64).to_string(), "f64");
    assert_eq!(adt(3, "Vec").to_string(), "Vec");
}

#[test]
fn displays_types_made_of_types() {
    assert_eq!(Ty::unit().to_string(), "()");
    assert_eq!(Ty::Tuple(vec![Ty::Bool, Ty::Int(IntTy::I8)]).to_string(), "(bool,i8,)");
    assert_eq!(Ty::Slice(Arc::new(Ty::Char)).to_string(), "[char]");
    assert_eq!(fn_ptr(vec![], Ty::Unknown).to_string(), "fn() -> [unknown]");
    assert_eq!(
        fn_ptr(vec![Ty::Str, Ty::Tuple(vec![Ty::Never])], Ty::unit()).to_string(),
        "fn(str,(!,),) -> ()"
    );
}

#[test]
fn equal_types_are_equal_all_the_way_down() {
    let sig = || fn_ptr(vec![adt(1, "S"), Ty::Bool], Ty::Slice(Arc::new(Ty::Str)));
    assert!(sig() == sig());
    assert!(sig() != fn_ptr(vec![adt(1, "S")], Ty::Slice(Arc::new(Ty::Str))));
    assert!(sig() != fn_ptr(vec![adt(1, "S"), Ty::Char], Ty::Slice(Arc::new(Ty::Str))));
    assert!(sig() != fn_ptr(vec![adt(1, "S"), Ty::Bool], Ty::Slice(Arc::new(Ty::Char))));
    assert!(adt(1, "S") != adt(2, "S"));
    assert!(adt(1, "S") != adt(1, "T"));
    assert!(Ty::unit() != Ty::Unknown);
    assert!(Ty::Int(IntTy::I8) != Ty::Int(IntTy::I16));
    assert!(FnSig { input: vec![], output: Ty::Bool } == FnSig { input: vec![], output: Ty::Bool });
    assert!(FnSig { input: vec![], output: Ty::Bool } != FnSig { input: vec![], output: Ty::Char });
}

#[test]
fn a_copy_is_equal() {
    let ty = Ty::Tuple(vec![adt(7, "T"), fn_ptr(vec![Ty::Bool], Ty::Never), Ty::unit()]);
    assert!(ty.clone() == ty);
    let sig = FnSig { input: vec![ty.clone()], output: Ty::Str };
    assert!(sig.clone() == sig);
}

#[test]
fn number_names_are_read_back() {
    let ints = [IntTy::Isize, IntTy::I8, IntTy::I16, IntTy::I32, IntTy::I64, IntTy::I128];
    for ty in ints {
        assert_eq!(IntTy::from_string(ty.ty_to_string()), Some(ty));
        assert_eq!(UintTy::from_string(ty.ty_to_string()), None);
        assert_eq!(FloatTy::from_string(ty.ty_to_string()), None);
    }
    let uints = [UintTy::Usize, UintTy::U8, UintTy::U16, UintTy::U32, UintTy::U64, UintTy::U128];
    for ty in uints {
        assert_eq!(UintTy::from_string(ty.ty_to_string()), Some(ty));
        assert_eq!(IntTy::from_string(ty.ty_to_string()), None);
    }
    for ty in [FloatTy::F32, FloatTy::F64] {
        assert_eq!(FloatTy::from_string(ty.ty_to_string()), Some(ty));
        assert_eq!(IntTy::from_string(ty.ty_to_string()), None);
    }
}

#[test]
fn other_names_are_no_numbers() {
    for name in ["", "i", "i7", "I32", "i32 ", "bool", "char", "str", "f16", "u256"] {
        assert_eq!(IntTy::from_string(name), None);
        assert_eq!(UintTy::from_string(name), None);
        assert_eq!(FloatTy::from_string(name), None);
    }
}
