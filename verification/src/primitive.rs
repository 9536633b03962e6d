//! The primitive number types and the names they are written by.

use vstd::prelude::*;

verus! {

/// A signed integer type.
#[derive(Clone, Copy, PartialEq, Eq, Hash, Debug, Structural)]
pub enum IntTy {
    Isize,
    I8,
    I16,
    I32,
    I64,
    I128,
}

/// An unsigned integer type.
#[derive(Clone, Copy, PartialEq, Eq, Hash, Debug, Structural)]
pub enum UintTy {
    Usize,
    U8,
    U16,
    U32,
    U64,
    U128,
}

/// A floating-point type.
#[derive(Clone, Copy, PartialEq, Eq, Hash, Debug, Structural)]
pub enum FloatTy {
    F32,
    F64,
}

/// Whether two strings hold the same characters.
pub fn same_text(a: &str, b: &str) -> (same: bool)
    ensures
        same == (a@ == b@),
{
    a.to_owned() == b.to_owned()
}

impl IntTy {
    /// The name this type is written by.
    pub open spec fn name(self) -> Seq<char> {
        match self {
            IntTy::Isize => "isize"@,
            IntTy::I8 => "i8"@,
            IntTy::I16 => "i16"@,
            IntTy::I32 => "i32"@,
            IntTy::I64 => "i64"@,
            IntTy::I128 => "i128"@,
        }
    }

    /// The type written `text`, where there is one.
    pub open spec fn named(text: Seq<char>) -> Option<IntTy> {
        if exists|ty: IntTy| #[trigger] ty.name() == text {
            Some(choose|ty: IntTy| #[trigger] ty.name() == text)
        } else {
            None
        }
    }

    pub fn ty_to_string(&self) -> (text: &'static str)
        ensures
            text@ == self.name(),
    {
        match self {
            IntTy::Isize => "isize",
            IntTy::I8 => "i8",
            IntTy::I16 => "i16",
            IntTy::I32 => "i32",
            IntTy::I64 => "i64",
            IntTy::I128 => "i128",
        }
    }

    pub fn from_string(s: &str) -> (ty: Option<IntTy>)
        ensures
            ty == IntTy::named(s@),
    {
        let ty = if same_text(s, "isize") {
            Some(IntTy::Isize)
        } else if same_text(s, "i8") {
            Some(IntTy::I8)
        } else if same_text(s, "i16") {
            Some(IntTy::I16)
        } else if same_text(s, "i32") {
            Some(IntTy::I32)
        } else if same_text(s, "i64") {
            Some(IntTy::I64)
        } else if same_text(s, "i128") {
            Some(IntTy::I128)
        } else {
            None
        };
        proof {
            if let Some(found) = ty {
                int_name_round_trip(found);
            }
        }
        ty
    }
}

impl UintTy {
    /// The name this type is written by.
    pub open spec fn name(self) -> Seq<char> {
        match self {
            UintTy::Usize => "usize"@,
            UintTy::U8 => "u8"@,
            UintTy::U16 => "u16"@,
            UintTy::U32 => "u32"@,
            UintTy::U64 => "u64"@,
            UintTy::U128 => "u128"@,
        }
    }

    /// The type written `text`, where there is one.
    pub open spec fn named(text: Seq<char>) -> Option<UintTy> {
        if exists|ty: UintTy| #[trigger] ty.name() == text {
            Some(choose|ty: UintTy| #[trigger] ty.name() == text)
        } else {
            None
        }
    }

    pub fn ty_to_string(&self) -> (text: &'static str)
        ensures
            text@ == self.name(),
    {
        match self {
            UintTy::Usize => "usize",
            UintTy::U8 => "u8",
            UintTy::U16 => "u16",
            UintTy::U32 => "u32",
            UintTy::U64 => "u64",
            UintTy::U128 => "u128",
        }
    }

    pub fn from_string(s: &str) -> (ty: Option<UintTy>)
        ensures
            ty == UintTy::named(s@),
    {
        let ty = if same_text(s, "usize") {
            Some(UintTy::Usize)
        } else if same_text(s, "u8") {
            Some(UintTy::U8)
        } else if same_text(s, "u16") {
            Some(UintTy::U16)
        } else if same_text(s, "u32") {
            Some(UintTy::U32)
        } else if same_text(s, "u64") {
            Some(UintTy::U64)
        } else if same_text(s, "u128") {
            Some(UintTy::U128)
        } else {
            None
        };
        proof {
            if let Some(found) = ty {
                uint_name_round_trip(found);
            }
        }
        ty
    }
}

impl FloatTy {
    /// The name this type is written by.
    pub open spec fn name(self) -> Seq<char> {
        match self {
            FloatTy::F32 => "f32"@,
            FloatTy::F64 => "f64"@,
        }
    }

    /// The type written `text`, where there is one.
    pub open spec fn named(text: Seq<char>) -> Option<FloatTy> {
        if exists|ty: FloatTy| #[trigger] ty.name() == text {
            Some(choose|ty: FloatTy| #[trigger] ty.name() == text)
        } else {
            None
        }
    }

    pub fn ty_to_string(&self) -> (text: &'static str)
        ensures
            text@ == self.name(),
    {
        match self {
            FloatTy::F32 => "f32",
            FloatTy::F64 => "f64",
        }
    }

    pub fn from_string(s: &str) -> (ty: Option<FloatTy>)
        ensures
            ty == FloatTy::named(s@),
    {
        let ty = if same_text(s, "f32") {
            Some(FloatTy::F32)
        } else if same_text(s, "f64") {
            Some(FloatTy::F64)
        } else {
            None
        };
        proof {
            if let Some(found) = ty {
                float_name_round_trip(found);
            }
        }
        ty
    }
}

/// A signed integer type is read back from the name it is written by.
pub proof fn int_name_round_trip(ty: IntTy)
    ensures
        IntTy::named(ty.name()) == Some(ty),
{
    reveal_int_names();
}

/// An unsigned integer type is read back from the name it is written by.
pub proof fn uint_name_round_trip(ty: UintTy)
    ensures
        UintTy::named(ty.name()) == Some(ty),
{
    reveal_uint_names();
}

/// A floating-point type is read back from the name it is written by.
pub proof fn float_name_round_trip(ty: FloatTy)
    ensures
        FloatTy::named(ty.name()) == Some(ty),
{
    reveal_float_names();
}

/// A type that is read from a name is written by that name.
pub proof fn named_type_has_that_name(text: Seq<char>)
    ensures
        IntTy::named(text) matches Some(ty) ==> ty.name() == text,
        UintTy::named(text) matches Some(ty) ==> ty.name() == text,
        FloatTy::named(text) matches Some(ty) ==> ty.name() == text,
{
}

/// No name belongs to more than one of the three families of number types.
pub proof fn number_names_are_disjoint(text: Seq<char>)
    ensures
        IntTy::named(text) is Some ==> UintTy::named(text) is None && FloatTy::named(text) is None,
        UintTy::named(text) is Some ==> FloatTy::named(text) is None,
{
    reveal_int_names();
    reveal_uint_names();
    reveal_float_names();
}

proof fn reveal_int_names()
    ensures
        "isize"@ == seq!['i', 's', 'i', 'z', 'e'],
        "i8"@ == seq!['i', '8'],
        "i16"@ == seq!['i', '1', '6'],
        "i32"@ == seq!['i', '3', '2'],
        "i64"@ == seq!['i', '6', '4'],
        "i128"@ == seq!['i', '1', '2', '8'],
{
    reveal_strlit("isize");
    reveal_strlit("i8");
    reveal_strlit("i16");
    reveal_strlit("i32");
    reveal_strlit("i64");
    reveal_strlit("i128");
}

proof fn reveal_uint_names()
    ensures
        "usize"@ == seq!['u', 's', 'i', 'z', 'e'],
        "u8"@ == seq!['u', '8'],
        "u16"@ == seq!['u', '1', '6'],
        "u32"@ == seq!['u', '3', '2'],
        "u64"@ == seq!['u', '6', '4'],
        "u128"@ == seq!['u', '1', '2', '8'],
{
    reveal_strlit("usize");
    reveal_strlit("u8");
    reveal_strlit("u16");
    reveal_strlit("u32");
    reveal_strlit("u64");
    reveal_strlit("u128");
}

proof fn reveal_float_names()
    ensures
        "f32"@ == seq!['f', '3', '2'],
        "f64"@ == seq!['f', '6', '4'],
{
    reveal_strlit("f32");
    reveal_strlit("f64");
}

} // verus!
