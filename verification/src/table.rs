//! Tables of the types of syntax nodes.

use crate::ast::LocalSyntaxPtr;
use crate::ty::Ty;
use crate::ty::TyModel;
use rustc_hash::FxHashMap;
use vstd::prelude::*;

verus! {

/// The hasher of `rustc_hash`.
#[verifier::external_type_specification]
#[verifier::external_body]
pub struct ExFxHasher(rustc_hash::FxHasher);

/// The builder of hashers that `FxHashMap` uses.
#[verifier::external_type_specification]
#[verifier::external_body]
#[verifier::reject_recursive_types(H)]
pub struct ExBuildHasherDefault<H>(std::hash::BuildHasherDefault<H>);

/// What a node is found by: the start and the end of its text, and its kind.
pub type NodeKey = (u32, u32, u16);

/// `HashMap::insert` on an `FxHashMap`: the key is mapped to the new value, whatever it was
/// mapped to before, and every other key keeps its value. The hasher is fixed and keys are
/// compared number by number, so equal keys are always found again.
#[verifier::external_body]
fn map_insert(map: &mut FxHashMap<NodeKey, Ty>, key: NodeKey, ty: Ty)
    ensures
        final(map)@ == old(map)@.insert(key, ty),
{
    map.insert(key, ty);
}

/// `HashMap::get` on an `FxHashMap`: the value that the key is mapped to, where it is mapped.
#[verifier::external_body]
fn map_get<'a>(map: &'a FxHashMap<NodeKey, Ty>, key: &NodeKey) -> (ty: Option<&'a Ty>)
    ensures
        match ty {
            Some(found) => map@.contains_key(*key) && map@[*key] == *found,
            None => !map@.contains_key(*key),
        },
{
    map.get(key)
}

/// The types of nodes as a mathematical value.
pub type Types = Map<LocalSyntaxPtr, TyModel>;

/// The key of a node.
pub open spec fn key_of(ptr: LocalSyntaxPtr) -> NodeKey {
    (ptr.range.start, ptr.range.end, ptr.kind)
}

/// A table from nodes to their types.
#[derive(PartialEq, Eq, Debug)]
pub struct TypeTable {
    map: FxHashMap<NodeKey, Ty>,
}

impl View for TypeTable {
    type V = Types;

    closed spec fn view(&self) -> Types {
        Map::new(
            |ptr: LocalSyntaxPtr| self.map@.contains_key(key_of(ptr)),
            |ptr: LocalSyntaxPtr| self.map@[key_of(ptr)]@,
        )
    }
}

impl TypeTable {
    /// A table without entries.
    pub fn new() -> (table: TypeTable)
        ensures
            table@ == Types::empty(),
    {
        let table = TypeTable { map: FxHashMap::default() };
        assert(table@ =~= Types::empty());
        table
    }

    /// Records the type of a node, in place of the one recorded before.
    pub fn insert(&mut self, ptr: LocalSyntaxPtr, ty: Ty)
        ensures
            final(self)@ == old(self)@.insert(ptr, ty@),
    {
        let ghost model = ty@;
        map_insert(&mut self.map, (ptr.range.start, ptr.range.end, ptr.kind), ty);
        assert forall|other: LocalSyntaxPtr| key_of(other) == key_of(ptr) implies other == ptr by {
            assert(other.range.start == ptr.range.start);
        }
        assert(self@ =~= old(self)@.insert(ptr, model));
    }

    /// The type recorded for a node, where one is.
    pub fn get(&self, ptr: LocalSyntaxPtr) -> (ty: Option<&Ty>)
        ensures
            match ty {
                Some(found) => self@.contains_key(ptr) && self@[ptr] == found@,
                None => !self@.contains_key(ptr),
            },
    {
        map_get(&self.map, &(ptr.range.start, ptr.range.end, ptr.kind))
    }
}

impl Clone for TypeTable {
    fn clone(&self) -> (copy: TypeTable)
        ensures
            copy@ == self@,
    {
        TypeTable { map: self.map.clone() }
    }
}

} // verus!
