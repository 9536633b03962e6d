//! The syntax tree, as far as type inference reads it.
//!
//! Source text may be incomplete, so most parts of a node are optional.

use crate::hir::Path as HirPath;
use vstd::prelude::*;

verus! {

/// A range of text, as byte offsets into a file.
#[derive(Clone, Copy, PartialEq, Eq, Hash, Debug, Structural)]
pub struct TextRange {
    pub start: u32,
    pub end: u32,
}

/// A node of the tree, known by the text it covers and by its kind.
#[derive(Clone, Copy, PartialEq, Eq, Hash, Debug, Structural)]
pub struct SyntaxNodeRef {
    pub range: TextRange,
    pub kind: u16,
}

/// A pointer to a node, which stays valid when the tree is parsed anew from the same text.
#[derive(Clone, Copy, PartialEq, Eq, Hash, Debug, Structural)]
pub struct LocalSyntaxPtr {
    pub range: TextRange,
    pub kind: u16,
}

/// The pointer to a node.
pub open spec fn ptr_to(node: SyntaxNodeRef) -> LocalSyntaxPtr {
    LocalSyntaxPtr { range: node.range, kind: node.kind }
}

impl LocalSyntaxPtr {
    pub fn new(node: SyntaxNodeRef) -> (ptr: LocalSyntaxPtr)
        ensures
            ptr == ptr_to(node),
    {
        LocalSyntaxPtr { range: node.range, kind: node.kind }
    }
}

/// A use of a name.
#[derive(Debug)]
pub struct NameRef {
    pub syntax: SyntaxNodeRef,
    pub text: String,
}

#[derive(Debug)]
pub struct PathSegment {
    pub name_ref: Option<NameRef>,
}

/// A path as it is written. It is lowered only where all of it is there.
#[derive(Debug)]
pub struct Path {
    pub segment: Option<PathSegment>,
    pub lowered: Option<HirPath>,
}

/// A type as it is written.
#[derive(Debug)]
pub enum TypeRef {
    ParenType,
    TupleType,
    NeverType,
    PathType { path: Option<Path> },
    PointerType,
    ArrayType,
    SliceType,
    ReferenceType,
    PlaceholderType,
    FnPointerType,
    ForType,
    ImplTraitType,
    DynTraitType,
}

#[derive(Debug)]
pub struct Pat {
    pub syntax: SyntaxNodeRef,
}

/// The condition of an `if` or a `while`.
#[derive(Debug)]
pub struct Condition {
    pub expr: Option<Box<Expr>>,
}

#[derive(Debug)]
pub struct ArgList {
    pub args: Vec<Expr>,
}

#[derive(Debug)]
pub struct MatchArm {
    pub expr: Option<Box<Expr>>,
}

#[derive(Debug)]
pub struct MatchArmList {
    pub arms: Vec<MatchArm>,
}

#[derive(Debug)]
pub struct NamedField {
    pub expr: Option<Box<Expr>>,
}

#[derive(Debug)]
pub struct NamedFieldList {
    pub fields: Vec<NamedField>,
}

#[derive(Debug)]
pub struct Expr {
    pub syntax: SyntaxNodeRef,
    pub kind: ExprKind,
}

#[derive(Debug)]
pub enum ExprKind {
    IfExpr { condition: Option<Condition>, then_branch: Option<Block>, else_branch: Option<Block> },
    BlockExpr { block: Option<Block> },
    LoopExpr { loop_body: Option<Block> },
    WhileExpr { condition: Option<Condition>, loop_body: Option<Block> },
    ForExpr { pat: Option<Pat>, iterable: Option<Box<Expr>>, loop_body: Option<Block> },
    LambdaExpr { body: Option<Box<Expr>> },
    CallExpr { expr: Option<Box<Expr>>, arg_list: Option<ArgList> },
    MethodCallExpr { expr: Option<Box<Expr>>, arg_list: Option<ArgList> },
    MatchExpr { expr: Option<Box<Expr>>, match_arm_list: Option<MatchArmList> },
    TupleExpr,
    ArrayExpr,
    PathExpr { path: Option<Path> },
    ContinueExpr,
    BreakExpr,
    ParenExpr { expr: Option<Box<Expr>> },
    Label,
    ReturnExpr { expr: Option<Box<Expr>> },
    MatchArmList,
    MatchArm,
    MatchGuard,
    StructLit { path: Option<Path>, named_field_list: Option<NamedFieldList> },
    NamedFieldList,
    NamedField,
    IndexExpr,
    FieldExpr { expr: Option<Box<Expr>>, name_ref: Option<NameRef> },
    TryExpr { expr: Option<Box<Expr>> },
    CastExpr { expr: Option<Box<Expr>>, type_ref: Option<TypeRef> },
    RefExpr { expr: Option<Box<Expr>> },
    PrefixExpr { expr: Option<Box<Expr>> },
    RangeExpr,
    BinExpr,
    Literal,
}

#[derive(Debug)]
pub enum Stmt {
    LetStmt { pat: Option<Pat>, type_ref: Option<TypeRef>, initializer: Option<Box<Expr>> },
    ExprStmt { expr: Option<Box<Expr>> },
}

/// A block: its statements, and the expression at its end.
#[derive(Debug)]
pub struct Block {
    pub syntax: SyntaxNodeRef,
    pub statements: Vec<Stmt>,
    pub expr: Option<Box<Expr>>,
}

/// A parameter of a function. A `self` parameter has no type of its own.
#[derive(Debug)]
pub struct Param {
    pub pat: Option<Pat>,
    pub type_ref: Option<TypeRef>,
}

#[derive(Debug)]
pub struct ParamList {
    pub params: Vec<Param>,
}

#[derive(Debug)]
pub struct RetType {
    pub type_ref: Option<TypeRef>,
}

#[derive(Debug)]
pub struct FnDef {
    pub param_list: Option<ParamList>,
    pub ret_type: Option<RetType>,
    pub body: Option<Block>,
}

} // verus!
