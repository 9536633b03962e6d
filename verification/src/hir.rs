//! Definitions, and what type inference needs to know of each.

use crate::ast::LocalSyntaxPtr;
use crate::ast::NameRef;
use crate::ast::Path as AstPath;
use crate::ast::ptr_to;
use crate::primitive::same_text;
use crate::ty::Ty;
use crate::ty::TyModel;
use std::sync::Arc;
use vstd::prelude::*;

verus! {

/// The identity of a definition.
#[derive(Clone, Copy, PartialEq, Eq, Hash, Debug, Structural)]
pub struct DefId(pub u32);

/// A module, by its identity.
#[derive(Clone, Copy, PartialEq, Eq, Hash, Debug, Structural)]
pub struct Module(pub u32);

/// A function, by the identity of its definition.
#[derive(Clone, Copy, PartialEq, Eq, Hash, Debug, Structural)]
pub struct Function(pub DefId);

/// A struct, by the identity of its definition.
#[derive(Clone, Copy, PartialEq, Eq, Hash, Debug, Structural)]
pub struct Struct(pub DefId);

/// An enum, by the identity of its definition.
#[derive(Clone, Copy, PartialEq, Eq, Hash, Debug, Structural)]
pub struct Enum(pub DefId);

impl Struct {
    pub fn def_id(&self) -> (def_id: DefId)
        ensures
            def_id == self.0,
    {
        self.0
    }
}

impl Enum {
    pub fn def_id(&self) -> (def_id: DefId)
        ensures
            def_id == self.0,
    {
        self.0
    }
}

/// What a definition is.
#[derive(Clone, Copy, PartialEq, Eq, Debug, Structural)]
pub enum Def {
    Module(Module),
    Function(Function),
    Struct(Struct),
    Enum(Enum),
    Item,
}

/// What a path denotes as a type and as a value.
#[derive(Clone, Copy, PartialEq, Eq, Debug, Structural)]
pub struct PerNs {
    pub types: Option<DefId>,
    pub values: Option<DefId>,
}

impl PerNs {
    pub fn take_types(self) -> (def: Option<DefId>)
        ensures
            def == self.types,
    {
        self.types
    }

    pub fn take_values(self) -> (def: Option<DefId>)
        ensures
            def == self.values,
    {
        self.values
    }
}

/// Where a path starts.
#[derive(Clone, Copy, PartialEq, Eq, Hash, Debug, Structural)]
pub enum PathKind {
    Plain,
    Self_,
    Super,
    Crate,
}

/// A lowered path: where it starts, and the names along it.
#[derive(Debug)]
pub struct Path {
    pub kind: PathKind,
    pub segments: Vec<String>,
}

/// A lowered path as a mathematical value.
pub struct PathModel {
    pub kind: PathKind,
    pub segments: Seq<Seq<char>>,
}

impl View for Path {
    type V = PathModel;

    open spec fn view(&self) -> PathModel {
        PathModel {
            kind: self.kind,
            segments: self.segments@.map_values(|segment: String| segment@),
        }
    }
}

impl PathModel {
    /// Whether the path is a single name.
    pub open spec fn is_ident(self) -> bool {
        self.kind == PathKind::Plain && self.segments.len() == 1
    }
}

/// The lowered form of a written path, where it has one.
pub open spec fn lowered_path(path: AstPath) -> Option<PathModel> {
    match path.lowered {
        Some(lowered) => Some(lowered@),
        None => None,
    }
}

impl Path {
    /// Lowers a written path.
    pub fn from_ast(path: &AstPath) -> (lowered: Option<&Path>)
        ensures
            match lowered {
                Some(p) => lowered_path(*path) == Some(p@),
                None => lowered_path(*path) is None,
            },
    {
        match &path.lowered {
            Some(lowered) => Some(lowered),
            None => None,
        }
    }

    pub fn is_ident(&self) -> (ident: bool)
        ensures
            ident == self@.is_ident(),
    {
        self.kind == PathKind::Plain && self.segments.len() == 1
    }
}

/// A field of a struct.
#[derive(Debug)]
pub struct StructField {
    pub name: String,
    pub ty: Ty,
}

/// The fields of a struct, as written.
#[derive(Debug)]
pub struct VariantData {
    pub fields: Vec<StructField>,
}

/// The fields of a struct as a mathematical value: the name and the type of each.
pub type VariantModel = Seq<(Seq<char>, TyModel)>;

impl View for VariantData {
    type V = VariantModel;

    open spec fn view(&self) -> VariantModel {
        self.fields@.map_values(|field: StructField| (field.name@, field.ty@))
    }
}

/// The type of the first field of that name.
pub open spec fn field_named(fields: VariantModel, name: Seq<char>) -> Option<TyModel>
    decreases fields.len(),
{
    if fields.len() == 0 {
        None
    } else if fields[0].0 == name {
        Some(fields[0].1)
    } else {
        field_named(fields.skip(1), name)
    }
}

impl VariantData {
    /// The type of the field with the given name, where there is one.
    pub fn get_field_ty(&self, field_name: &str) -> (ty: Option<Ty>)
        ensures
            match ty {
                Some(found) => field_named(self@, field_name@) == Some(found@),
                None => field_named(self@, field_name@) is None,
            },
    {
        let mut i: usize = 0;
        assert(self@.skip(0) =~= self@);
        while i < self.fields.len()
            invariant
                i <= self.fields.len(),
                self@.len() == self.fields.len(),
                field_named(self@, field_name@) == field_named(self@.skip(i as int), field_name@),
            decreases self.fields.len() - i,
        {
            let field = &self.fields[i];
            assert(self@.skip(i as int)[0] == (field.name@, field.ty@));
            if same_text(field.name.as_str(), field_name) {
                return Some(field.ty.clone());
            }
            assert(self@.skip(i as int).skip(1) =~= self@.skip(i + 1));
            i = i + 1;
        }
        None
    }
}

/// What is known of a struct.
#[derive(Debug)]
pub struct StructData {
    pub variant_data: Arc<VariantData>,
}

impl StructData {
    pub fn variant_data(&self) -> (data: &Arc<VariantData>)
        ensures
            data == self.variant_data,
    {
        &self.variant_data
    }
}

/// A local binding, known by the node of its pattern.
#[derive(Clone, Copy, PartialEq, Eq, Debug, Structural)]
pub struct ScopeEntry {
    pub ptr: LocalSyntaxPtr,
}

impl ScopeEntry {
    pub fn ptr(&self) -> (ptr: LocalSyntaxPtr)
        ensures
            ptr == self.ptr,
    {
        self.ptr
    }
}

/// A use of a name inside a function, and the local binding that it denotes.
#[derive(Clone, Copy, PartialEq, Eq, Debug, Structural)]
pub struct LocalUse {
    pub name: LocalSyntaxPtr,
    pub entry: ScopeEntry,
}

/// The scopes of a function: which local binding each use of a name denotes.
/// A use that is not listed denotes no local binding.
#[derive(Debug)]
pub struct FnScopes {
    pub uses: Vec<LocalUse>,
}

/// The binding that the first listed use at that node denotes.
pub open spec fn local_entry(uses: Seq<LocalUse>, name: LocalSyntaxPtr) -> Option<ScopeEntry>
    decreases uses.len(),
{
    if uses.len() == 0 {
        None
    } else if uses[0].name == name {
        Some(uses[0].entry)
    } else {
        local_entry(uses.skip(1), name)
    }
}

impl FnScopes {
    /// The local binding that a use of a name denotes, where it denotes one.
    pub fn resolve_local_name(&self, name_ref: &NameRef) -> (entry: Option<ScopeEntry>)
        ensures
            entry == local_entry(self.uses@, ptr_to(name_ref.syntax)),
    {
        let name = LocalSyntaxPtr::new(name_ref.syntax);
        let mut i: usize = 0;
        assert(self.uses@.skip(0) =~= self.uses@);
        while i < self.uses.len()
            invariant
                i <= self.uses.len(),
                name == ptr_to(name_ref.syntax),
                local_entry(self.uses@, name) == local_entry(self.uses@.skip(i as int), name),
            decreases self.uses.len() - i,
        {
            if self.uses[i].name == name {
                return Some(self.uses[i].entry);
            }
            assert(self.uses@.skip(i as int).skip(1) =~= self.uses@.skip(i + 1));
            i = i + 1;
        }
        None
    }
}

} // verus!
