//! Type inference for function bodies: a syntax tree and a database of definitions go in, the
//! type of each node comes out.

pub mod ast;
pub mod db;
pub mod hir;
pub mod index;
pub mod infer;
pub mod laws;
pub mod lower;
pub mod primitive;
pub mod rules;
pub mod snapshot;
pub mod table;
pub mod ty;
