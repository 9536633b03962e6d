//! A database held in memory.

use crate::ast::FnDef;
use crate::db::Answers;
use crate::db::Cancelable;
use crate::db::Canceled;
use crate::db::HirDatabase;
use crate::db::name_answer;
use crate::db::ty_answer;
use crate::db::variant_answer;
use crate::hir::Def;
use crate::hir::DefId;
use crate::hir::Enum;
use crate::hir::FnScopes;
use crate::hir::Function;
use crate::hir::LocalUse;
use crate::hir::Module;
use crate::hir::Path;
use crate::hir::PathModel;
use crate::hir::PerNs;
use crate::hir::Struct;
use crate::hir::StructData;
use crate::hir::VariantData;
use crate::primitive::same_text;
use crate::ty::Ty;
use std::sync::Arc;
use vstd::prelude::*;

verus! {

/// What is known of a definition.
#[derive(Debug)]
pub struct DefEntry {
    /// What it is.
    pub def: Cancelable<Def>,
    /// Its type.
    pub ty: Cancelable<Ty>,
    /// Its name, where it is a struct or an enum.
    pub name: Cancelable<Option<String>>,
    /// Its fields, where it is a struct.
    pub variant_data: Cancelable<Arc<VariantData>>,
    /// The module that it stands in, where it is a function.
    pub module: Cancelable<Module>,
    /// How it is written, where it is a function.
    pub syntax: Arc<FnDef>,
    /// The scopes inside it, where it is a function.
    pub scopes: Arc<FnScopes>,
}

/// What a path denotes, seen from a module.
#[derive(Debug)]
pub struct PathEntry {
    pub module: Module,
    pub path: Path,
    pub found: Cancelable<PerNs>,
}

/// A database that was filled beforehand. The identity of a definition is its place in `defs`;
/// questions about a definition that is not there are canceled. A path that is not listed
/// denotes nothing.
#[derive(Debug)]
pub struct Snapshot {
    pub defs: Vec<DefEntry>,
    pub paths: Vec<PathEntry>,
}

/// A function of which nothing is written.
pub open spec fn blank_fn() -> FnDef {
    FnDef { param_list: None, ret_type: None, body: None }
}

/// What the first entry for a path says.
pub open spec fn listed_path(paths: Seq<PathEntry>, module: Module, path: PathModel) -> Cancelable<
    PerNs,
>
    decreases paths.len(),
{
    if paths.len() == 0 {
        Ok(PerNs { types: None, values: None })
    } else if paths[0].module == module && paths[0].path@ == path {
        paths[0].found
    } else {
        listed_path(paths.skip(1), module, path)
    }
}

/// Whether two paths are the same.
fn same_path(a: &Path, b: &Path) -> (same: bool)
    ensures
        same == (a@ == b@),
{
    if a.kind != b.kind {
        return false;
    }
    if a.segments.len() != b.segments.len() {
        assert(a@.segments.len() != b@.segments.len());
        return false;
    }
    let mut i: usize = 0;
    while i < a.segments.len()
        invariant
            i <= a.segments.len(),
            a.segments.len() == b.segments.len(),
            forall|j: int| 0 <= j < i ==> a@.segments[j] == b@.segments[j],
        decreases a.segments.len() - i,
    {
        assert(a@.segments[i as int] == a.segments@[i as int]@);
        assert(b@.segments[i as int] == b.segments@[i as int]@);
        if !same_text(a.segments[i].as_str(), b.segments[i].as_str()) {
            return false;
        }
        i = i + 1;
    }
    assert(a@.segments =~= b@.segments);
    true
}

impl Snapshot {
    /// What is known of a definition, where it is there.
    pub open spec fn known(&self, def_id: DefId) -> Option<DefEntry> {
        if def_id.0 < self.defs@.len() {
            Some(self.defs@[def_id.0 as int])
        } else {
            None
        }
    }

    fn entry(&self, def_id: DefId) -> (entry: Option<&DefEntry>)
        ensures
            match entry {
                Some(found) => self.known(def_id) == Some(*found),
                None => self.known(def_id) is None,
            },
    {
        let place = def_id.0 as usize;
        if place < self.defs.len() {
            Some(&self.defs[place])
        } else {
            None
        }
    }

    fn name(&self, def_id: DefId) -> (answer: Cancelable<Option<String>>)
        ensures
            name_answer(answer) == (match self.known(def_id) {
                Some(entry) => name_answer(entry.name),
                None => Err(Canceled),
            }),
    {
        match self.entry(def_id) {
            Some(entry) => match &entry.name {
                Ok(Some(name)) => Ok(Some(name.clone())),
                Ok(None) => Ok(None),
                Err(canceled) => Err(*canceled),
            },
            None => Err(Canceled),
        }
    }

    fn variant_data(&self, def_id: DefId) -> (answer: Cancelable<Arc<VariantData>>)
        ensures
            variant_answer(answer) == (match self.known(def_id) {
                Some(entry) => variant_answer(entry.variant_data),
                None => Err(Canceled),
            }),
    {
        match self.entry(def_id) {
            Some(entry) => match &entry.variant_data {
                Ok(data) => Ok(data.clone()),
                Err(canceled) => Err(*canceled),
            },
            None => Err(Canceled),
        }
    }
}

impl HirDatabase for Snapshot {
    open spec fn answers(&self) -> Answers {
        Answers {
            resolve_path: |module: Module, path: PathModel| listed_path(self.paths@, module, path),
            type_for_def: |def_id: DefId|
                match self.known(def_id) {
                    Some(entry) => ty_answer(entry.ty),
                    None => Err(Canceled),
                },
            resolve_def: |def_id: DefId|
                match self.known(def_id) {
                    Some(entry) => entry.def,
                    None => Err(Canceled),
                },
            struct_data: |def_id: DefId|
                match self.known(def_id) {
                    Some(entry) => variant_answer(entry.variant_data),
                    None => Err(Canceled),
                },
            struct_name: |s: Struct|
                match self.known(s.0) {
                    Some(entry) => name_answer(entry.name),
                    None => Err(Canceled),
                },
            struct_variant_data: |s: Struct|
                match self.known(s.0) {
                    Some(entry) => variant_answer(entry.variant_data),
                    None => Err(Canceled),
                },
            enum_name: |e: Enum|
                match self.known(e.0) {
                    Some(entry) => name_answer(entry.name),
                    None => Err(Canceled),
                },
            fn_module: |f: Function|
                match self.known(f.0) {
                    Some(entry) => entry.module,
                    None => Err(Canceled),
                },
            fn_syntax: |f: Function|
                match self.known(f.0) {
                    Some(entry) => *entry.syntax,
                    None => blank_fn(),
                },
            fn_scopes: |f: Function|
                match self.known(f.0) {
                    Some(entry) => entry.scopes.uses@,
                    None => Seq::<LocalUse>::empty(),
                },
        }
    }

    fn resolve_path(&self, module: Module, path: &Path) -> (answer: Cancelable<PerNs>) {
        let mut i: usize = 0;
        assert(self.paths@.skip(0) =~= self.paths@);
        while i < self.paths.len()
            invariant
                i <= self.paths.len(),
                listed_path(self.paths@, module, path@) == listed_path(
                    self.paths@.skip(i as int),
                    module,
                    path@,
                ),
            decreases self.paths.len() - i,
        {
            let entry = &self.paths[i];
            if entry.module == module && same_path(&entry.path, path) {
                return entry.found;
            }
            assert(self.paths@.skip(i as int).skip(1) =~= self.paths@.skip(i + 1));
            i = i + 1;
        }
        Ok(PerNs { types: None, values: None })
    }

    fn type_for_def(&self, def_id: DefId) -> (answer: Cancelable<Ty>) {
        match self.entry(def_id) {
            Some(entry) => match &entry.ty {
                Ok(ty) => Ok(ty.clone()),
                Err(canceled) => Err(*canceled),
            },
            None => Err(Canceled),
        }
    }

    fn resolve_def(&self, def_id: DefId) -> (answer: Cancelable<Def>) {
        match self.entry(def_id) {
            Some(entry) => entry.def,
            None => Err(Canceled),
        }
    }

    fn struct_data(&self, def_id: DefId) -> (answer: Cancelable<Arc<StructData>>) {
        match self.variant_data(def_id) {
            Ok(variant_data) => Ok(Arc::new(StructData { variant_data })),
            Err(canceled) => Err(canceled),
        }
    }

    fn struct_name(&self, s: Struct) -> (answer: Cancelable<Option<String>>) {
        self.name(s.0)
    }

    fn struct_variant_data(&self, s: Struct) -> (answer: Cancelable<Arc<VariantData>>) {
        self.variant_data(s.0)
    }

    fn enum_name(&self, e: Enum) -> (answer: Cancelable<Option<String>>) {
        self.name(e.0)
    }

    fn fn_module(&self, f: Function) -> (answer: Cancelable<Module>) {
        match self.entry(f.0) {
            Some(entry) => entry.module,
            None => Err(Canceled),
        }
    }

    fn fn_syntax(&self, f: Function) -> (answer: Arc<FnDef>) {
        match self.entry(f.0) {
            Some(entry) => entry.syntax.clone(),
            None => Arc::new(FnDef { param_list: None, ret_type: None, body: None }),
        }
    }

    fn fn_scopes(&self, f: Function) -> (answer: Arc<FnScopes>) {
        match self.entry(f.0) {
            Some(entry) => entry.scopes.clone(),
            None => {
                let uses: Vec<LocalUse> = Vec::new();
                assert(uses@ =~= Seq::<LocalUse>::empty());
                Arc::new(FnScopes { uses })
            },
        }
    }
}

} // verus!
