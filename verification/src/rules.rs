//! What type inference computes.
//!
//! An expression is inferred by inferring its parts, in the order in which they are written; its
//! type then follows from theirs by the rule for its kind, and is recorded for its node. A
//! question to the database that is canceled ends all of it, except inside the iterable of a
//! `for` loop, where it ends only that.

use crate::ast::ArgList;
use crate::ast::Block;
use crate::ast::Condition;
use crate::ast::Expr;
use crate::ast::ExprKind;
use crate::ast::MatchArmList;
use crate::ast::NameRef;
use crate::ast::NamedFieldList;
use crate::ast::Param;
use crate::ast::Pat;
use crate::ast::Path as AstPath;
use crate::ast::Stmt;
use crate::ast::SyntaxNodeRef;
use crate::ast::ptr_to;
use crate::db::Answers;
use crate::db::Cancelable;
use crate::hir::Def;
use crate::hir::Function;
use crate::hir::LocalUse;
use crate::hir::Module;
use crate::hir::VariantModel;
use crate::hir::field_named;
use crate::hir::local_entry;
use crate::hir::lowered_path;
use crate::index::written_index;
use crate::lower::params_of;
use crate::lower::struct_type;
use crate::lower::written_type_opt;
use crate::table::Types;
use crate::ty::TyModel;
use crate::ty::unit_model;
use vstd::prelude::*;

verus! {

/// What the inference of a function body has to go by.
pub struct Env {
    /// What the database answers.
    pub answers: Answers,
    /// The uses of local bindings inside the function.
    pub scopes: Seq<LocalUse>,
    /// The module that the function stands in.
    pub module: Module,
}

/// The type that two types agree on: the one that is known, or the one that both are.
pub open spec fn join(a: TyModel, b: TyModel) -> Option<TyModel> {
    if a == TyModel::Unknown {
        Some(b)
    } else if b == TyModel::Unknown || a == b {
        Some(a)
    } else {
        None
    }
}

/// The type of an `if`: what its branches agree on.
pub open spec fn branch_type(then_ty: TyModel, else_ty: TyModel) -> TyModel {
    match join(then_ty, else_ty) {
        Some(ty) => ty,
        None => TyModel::Unknown,
    }
}

/// The type of a `let` pattern: what the initializer and the declared type agree on, or else the
/// declared type.
pub open spec fn let_type(init_ty: TyModel, decl_ty: TyModel) -> TyModel {
    match join(init_ty, decl_ty) {
        Some(ty) => ty,
        None => decl_ty,
    }
}

/// The type of a call: the result type of the callee, where that is a function.
pub open spec fn call_type(callee: TyModel) -> TyModel {
    match callee {
        TyModel::FnPtr { input, output } => *output,
        _ => TyModel::Unknown,
    }
}

/// The name that stands for a whole path, where one does.
pub open spec fn path_name(path: AstPath) -> Option<NameRef> {
    match path.segment {
        Some(segment) => segment.name_ref,
        None => None,
    }
}

/// The type of a path as a value among the items of the module.
pub open spec fn value_type(env: Env, path: AstPath) -> Cancelable<Option<TyModel>> {
    match (env.answers.resolve_path)(env.module, lowered_path(path)->0) {
        Err(canceled) => Err(canceled),
        Ok(found) => match found.values {
            None => Ok(None),
            Some(def_id) => match (env.answers.type_for_def)(def_id) {
                Err(canceled) => Err(canceled),
                Ok(ty) => Ok(Some(ty)),
            },
        },
    }
}

/// The type of a path expression, where it has one. A single name that denotes a local binding
/// has the type recorded for that binding, and is not looked up anywhere else.
pub open spec fn path_expr_type(env: Env, types: Types, path: Option<AstPath>) -> Cancelable<
    Option<TyModel>,
> {
    match path {
        None => Ok(None),
        Some(path) => match lowered_path(path) {
            None => Ok(None),
            Some(lowered) => if lowered.is_ident() {
                match path_name(path) {
                    None => Ok(None),
                    Some(name) => match local_entry(env.scopes, ptr_to(name.syntax)) {
                        Some(entry) => if types.contains_key(entry.ptr) {
                            Ok(Some(types[entry.ptr]))
                        } else {
                            Ok(None)
                        },
                        None => value_type(env, path),
                    },
                }
            } else {
                value_type(env, path)
            },
        },
    }
}

/// The struct that a struct literal names: its type, and its fields.
pub open spec fn variant(env: Env, path: Option<AstPath>) -> Cancelable<
    (TyModel, Option<VariantModel>),
> {
    match path {
        None => Ok((TyModel::Unknown, None)),
        Some(path) => match lowered_path(path) {
            None => Ok((TyModel::Unknown, None)),
            Some(lowered) => match (env.answers.resolve_path)(env.module, lowered) {
                Err(canceled) => Err(canceled),
                Ok(found) => match found.types {
                    None => Ok((TyModel::Unknown, None)),
                    Some(def_id) => match (env.answers.resolve_def)(def_id) {
                        Err(canceled) => Err(canceled),
                        Ok(Def::Struct(s)) => match (env.answers.struct_data)(def_id) {
                            Err(canceled) => Err(canceled),
                            Ok(fields) => match struct_type(env.answers, s) {
                                Err(canceled) => Err(canceled),
                                Ok(ty) => Ok((ty, Some(fields))),
                            },
                        },
                        Ok(_) => Ok((TyModel::Unknown, None)),
                    },
                },
            },
        },
    }
}

/// The type of a struct literal.
pub open spec fn literal_type(env: Env, path: Option<AstPath>) -> Cancelable<TyModel> {
    match variant(env, path) {
        Err(canceled) => Err(canceled),
        Ok((ty, _)) => Ok(ty),
    }
}

/// The type of a field: of a tuple by its index, of a struct by its name.
pub open spec fn field_type(env: Env, receiver: TyModel, name: Option<NameRef>) -> Cancelable<
    TyModel,
> {
    match name {
        None => Ok(TyModel::Unknown),
        Some(name) => match receiver {
            TyModel::Tuple(fields) => match written_index(name.text@) {
                Some(i) => if i < fields.len() {
                    Ok(fields[i as int])
                } else {
                    Ok(TyModel::Unknown)
                },
                None => Ok(TyModel::Unknown),
            },
            TyModel::Adt { def_id, name: _ } => match (env.answers.resolve_def)(def_id) {
                Err(canceled) => Err(canceled),
                Ok(Def::Struct(s)) => match (env.answers.struct_variant_data)(s) {
                    Err(canceled) => Err(canceled),
                    Ok(fields) => match field_named(fields, name.text@) {
                        Some(ty) => Ok(ty),
                        None => Ok(TyModel::Unknown),
                    },
                },
                Ok(_) => Ok(TyModel::Unknown),
            },
            _ => Ok(TyModel::Unknown),
        },
    }
}

/// A part of an expression that is inferred before the expression itself.
pub enum Part {
    /// A part that is not written. Its type is unknown.
    Missing,
    /// An expression.
    Expr(Expr),
    /// The iterable of a `for` loop. It may be canceled without harm to the loop.
    Iterable(Expr),
    /// A block.
    Block(Block),
}

pub open spec fn expr_part(expr: Option<Box<Expr>>) -> Part {
    match expr {
        Some(e) => Part::Expr(*e),
        None => Part::Missing,
    }
}

pub open spec fn iterable_part(expr: Option<Box<Expr>>) -> Part {
    match expr {
        Some(e) => Part::Iterable(*e),
        None => Part::Missing,
    }
}

pub open spec fn condition_part(condition: Option<Condition>) -> Part {
    match condition {
        Some(c) => expr_part(c.expr),
        None => Part::Missing,
    }
}

pub open spec fn block_part(block: Option<Block>) -> Part {
    match block {
        Some(b) => Part::Block(b),
        None => Part::Missing,
    }
}

pub open spec fn arg_parts(arg_list: Option<ArgList>) -> Seq<Part> {
    match arg_list {
        Some(list) => Seq::new(list.args@.len(), |i: int| Part::Expr(list.args@[i])),
        None => Seq::empty(),
    }
}

pub open spec fn arm_parts(arm_list: Option<MatchArmList>) -> Seq<Part> {
    match arm_list {
        Some(list) => Seq::new(list.arms@.len(), |i: int| expr_part(list.arms@[i].expr)),
        None => Seq::empty(),
    }
}

pub open spec fn field_parts(field_list: Option<NamedFieldList>) -> Seq<Part> {
    match field_list {
        Some(list) => Seq::new(list.fields@.len(), |i: int| expr_part(list.fields@[i].expr)),
        None => Seq::empty(),
    }
}

/// The parts of an expression, in the order in which they are inferred.
pub open spec fn parts(expr: Expr) -> Seq<Part> {
    match expr.kind {
        ExprKind::IfExpr { condition, then_branch, else_branch } => seq![
            condition_part(condition),
            block_part(then_branch),
            block_part(else_branch),
        ],
        ExprKind::BlockExpr { block } => seq![block_part(block)],
        ExprKind::LoopExpr { loop_body } => seq![block_part(loop_body)],
        ExprKind::WhileExpr { condition, loop_body } => seq![
            condition_part(condition),
            block_part(loop_body),
        ],
        ExprKind::ForExpr { pat, iterable, loop_body } => seq![
            iterable_part(iterable),
            block_part(loop_body),
        ],
        ExprKind::LambdaExpr { body } => seq![expr_part(body)],
        ExprKind::CallExpr { expr, arg_list } => seq![expr_part(expr)] + arg_parts(arg_list),
        ExprKind::MethodCallExpr { expr, arg_list } => seq![expr_part(expr)] + arg_parts(arg_list),
        ExprKind::MatchExpr { expr, match_arm_list } => seq![expr_part(expr)] + arm_parts(
            match_arm_list,
        ),
        ExprKind::ParenExpr { expr } => seq![expr_part(expr)],
        ExprKind::ReturnExpr { expr } => seq![expr_part(expr)],
        ExprKind::StructLit { path, named_field_list } => field_parts(named_field_list),
        ExprKind::FieldExpr { expr, name_ref } => seq![expr_part(expr)],
        ExprKind::TryExpr { expr } => seq![expr_part(expr)],
        ExprKind::CastExpr { expr, type_ref } => seq![expr_part(expr)],
        ExprKind::RefExpr { expr } => seq![expr_part(expr)],
        ExprKind::PrefixExpr { expr } => seq![expr_part(expr)],
        _ => Seq::empty(),
    }
}

/// The type of an expression, given the types of its parts and those recorded so far.
pub open spec fn rule(env: Env, types: Types, expr: Expr, part_tys: Seq<TyModel>) -> Cancelable<
    TyModel,
> {
    match expr.kind {
        ExprKind::IfExpr { condition, then_branch, else_branch } => Ok(
            branch_type(part_tys[1], part_tys[2]),
        ),
        ExprKind::BlockExpr { block } => Ok(part_tys[0]),
        ExprKind::CallExpr { expr, arg_list } => Ok(call_type(part_tys[0])),
        ExprKind::PathExpr { path } => match path_expr_type(env, types, path) {
            Err(canceled) => Err(canceled),
            Ok(Some(ty)) => Ok(ty),
            Ok(None) => Ok(TyModel::Unknown),
        },
        ExprKind::ContinueExpr => Ok(TyModel::Never),
        ExprKind::BreakExpr => Ok(TyModel::Never),
        ExprKind::ParenExpr { expr } => Ok(part_tys[0]),
        ExprKind::ReturnExpr { expr } => Ok(TyModel::Never),
        ExprKind::StructLit { path, named_field_list } => literal_type(env, path),
        ExprKind::FieldExpr { expr, name_ref } => field_type(env, part_tys[0], name_ref),
        ExprKind::CastExpr { expr, type_ref } => written_type_opt(
            env.answers,
            env.module,
            type_ref,
        ),
        _ => Ok(TyModel::Unknown),
    }
}

/// What is asked before any part is inferred: of a struct literal, which struct it names.
pub open spec fn opening(env: Env, expr: Expr) -> Cancelable<TyModel> {
    match expr.kind {
        ExprKind::StructLit { path, named_field_list } => literal_type(env, path),
        _ => Ok(TyModel::Unknown),
    }
}

/// Records the type of a node.
pub open spec fn record(types: Types, node: SyntaxNodeRef, ty: TyModel) -> Types {
    types.insert(ptr_to(node), ty)
}

/// Records the type of a pattern, where there is one.
pub open spec fn record_pat(types: Types, pat: Option<Pat>, ty: TyModel) -> Types {
    match pat {
        Some(p) => record(types, p.syntax, ty),
        None => types,
    }
}

/// A part of an expression is smaller than the expression.
pub proof fn lemma_part_smaller(expr: Expr, i: int)
    requires
        0 <= i < parts(expr).len(),
    ensures
        parts(expr)[i] matches Part::Expr(e) ==> decreases_to!(expr => e),
        parts(expr)[i] matches Part::Iterable(e) ==> decreases_to!(expr => e),
        parts(expr)[i] matches Part::Block(b) ==> decreases_to!(expr => b),
{
    match expr.kind {
        ExprKind::CallExpr { expr: _, arg_list: Some(list) } => {
            if i > 0 {
                assert(decreases_to!(list.args => list.args@[i - 1]));
            }
        },
        ExprKind::MethodCallExpr { expr: _, arg_list: Some(list) } => {
            if i > 0 {
                assert(decreases_to!(list.args => list.args@[i - 1]));
            }
        },
        ExprKind::MatchExpr { expr: _, match_arm_list: Some(list) } => {
            if i > 0 {
                assert(decreases_to!(list.arms => list.arms@[i - 1]));
            }
        },
        ExprKind::StructLit { path: _, named_field_list: Some(list) } => {
            assert(decreases_to!(list.fields => list.fields@[i]));
        },
        _ => {},
    }
}

/// Infers an expression: the types recorded afterwards, and its type. Where a question was
/// canceled, what had been recorded by then stays recorded.
pub open spec fn visit_expr(env: Env, expr: Expr, types: Types) -> (Types, Cancelable<TyModel>)
    decreases expr, 1nat, 0nat,
{
    match opening(env, expr) {
        Err(canceled) => (types, Err(canceled)),
        Ok(_) => {
            let (seen, part_tys) = visit_parts(env, expr, parts(expr).len(), types);
            match part_tys {
                Err(canceled) => (seen, Err(canceled)),
                Ok(part_tys) => match rule(env, seen, expr, part_tys) {
                    Err(canceled) => (seen, Err(canceled)),
                    Ok(ty) => (record(seen, expr.syntax, ty), Ok(ty)),
                },
            }
        },
    }
}

/// Infers the first `n` parts of an expression: the types recorded afterwards, and the type of
/// each of the parts.
pub open spec fn visit_parts(env: Env, expr: Expr, n: nat, types: Types) -> (
    Types,
    Cancelable<Seq<TyModel>>,
)
    decreases expr, 0nat, n,
{
    if n == 0 || n > parts(expr).len() {
        (types, Ok(Seq::empty()))
    } else {
        let (seen, part_tys) = visit_parts(env, expr, (n - 1) as nat, types);
        match part_tys {
            Err(canceled) => (seen, Err(canceled)),
            Ok(tys) => {
                proof {
                    lemma_part_smaller(expr, n - 1);
                }
                match parts(expr)[n - 1] {
                    Part::Missing => (seen, Ok(tys.push(TyModel::Unknown))),
                    Part::Expr(e) => {
                        let (after, ty) = visit_expr(env, e, seen);
                        match ty {
                            Err(canceled) => (after, Err(canceled)),
                            Ok(ty) => (after, Ok(tys.push(ty))),
                        }
                    },
                    Part::Iterable(e) => {
                        let (after, _) = visit_expr(env, e, seen);
                        (after, Ok(tys.push(TyModel::Unknown)))
                    },
                    Part::Block(b) => {
                        let (after, ty) = visit_block(env, b, seen);
                        match ty {
                            Err(canceled) => (after, Err(canceled)),
                            Ok(ty) => (after, Ok(tys.push(ty))),
                        }
                    },
                }
            },
        }
    }
}

/// Infers a block: its statements in order, then the expression at its end, whose type is that
/// of the block. A block that ends without an expression is of the unit type.
pub open spec fn visit_block(env: Env, block: Block, types: Types) -> (Types, Cancelable<TyModel>)
    decreases block, 1nat, 0nat,
{
    let (seen, done) = visit_stmts(env, block, block.statements@.len(), types);
    match done {
        Err(canceled) => (seen, Err(canceled)),
        Ok(_) => match block.expr {
            None => (record(seen, block.syntax, unit_model()), Ok(unit_model())),
            Some(e) => {
                let (after, ty) = visit_expr(env, *e, seen);
                match ty {
                    Err(canceled) => (after, Err(canceled)),
                    Ok(ty) => (record(after, block.syntax, ty), Ok(ty)),
                }
            },
        },
    }
}

/// Infers the first `n` statements of a block.
pub open spec fn visit_stmts(env: Env, block: Block, n: nat, types: Types) -> (
    Types,
    Cancelable<()>,
)
    decreases block, 0nat, n,
{
    if n == 0 || n > block.statements@.len() {
        (types, Ok(()))
    } else {
        let (seen, done) = visit_stmts(env, block, (n - 1) as nat, types);
        match done {
            Err(canceled) => (seen, Err(canceled)),
            Ok(_) => visit_stmt(env, block.statements@[n - 1], seen),
        }
    }
}

/// Infers a statement. A `let` records the type of its pattern.
pub open spec fn visit_stmt(env: Env, stmt: Stmt, types: Types) -> (Types, Cancelable<()>)
    decreases stmt, 1nat, 0nat,
{
    match stmt {
        Stmt::LetStmt { pat, type_ref, initializer } => match written_type_opt(
            env.answers,
            env.module,
            type_ref,
        ) {
            Err(canceled) => (types, Err(canceled)),
            Ok(decl_ty) => match initializer {
                None => (record_pat(types, pat, decl_ty), Ok(())),
                Some(e) => {
                    let (after, init_ty) = visit_expr(env, *e, types);
                    match init_ty {
                        Err(canceled) => (after, Err(canceled)),
                        Ok(init_ty) => (
                            record_pat(after, pat, let_type(init_ty, decl_ty)),
                            Ok(()),
                        ),
                    }
                },
            },
        },
        Stmt::ExprStmt { expr } => match expr {
            None => (types, Ok(())),
            Some(e) => {
                let (after, ty) = visit_expr(env, *e, types);
                match ty {
                    Err(canceled) => (after, Err(canceled)),
                    Ok(_) => (after, Ok(())),
                }
            },
        },
    }
}

/// Infers an expression that may not be there.
pub open spec fn visit_expr_opt(env: Env, expr: Option<Box<Expr>>, types: Types) -> (
    Types,
    Cancelable<TyModel>,
) {
    match expr {
        Some(e) => visit_expr(env, *e, types),
        None => (types, Ok(TyModel::Unknown)),
    }
}

/// Infers a block that may not be there.
pub open spec fn visit_block_opt(env: Env, block: Option<Block>, types: Types) -> (
    Types,
    Cancelable<TyModel>,
) {
    match block {
        Some(b) => visit_block(env, b, types),
        None => (types, Ok(TyModel::Unknown)),
    }
}

/// The types of the patterns of the first `n` parameters: the written one, or unknown where none
/// is. A parameter without a pattern is passed over.
pub open spec fn bind_params(answers: Answers, module: Module, params: Seq<Param>, n: nat) ->
    Cancelable<Types>
    decreases n,
{
    if n == 0 || n > params.len() {
        Ok(Types::empty())
    } else {
        let param = params[n - 1];
        match bind_params(answers, module, params, (n - 1) as nat) {
            Err(canceled) => Err(canceled),
            Ok(types) => if param.pat is None {
                Ok(types)
            } else {
                match written_type_opt(answers, module, param.type_ref) {
                    Err(canceled) => Err(canceled),
                    Ok(ty) => Ok(record_pat(types, param.pat, ty)),
                }
            },
        }
    }
}

/// The types of the nodes of a function: of its parameters, then of its body.
pub open spec fn fn_types(answers: Answers, f: Function) -> Cancelable<Types> {
    match (answers.fn_module)(f) {
        Err(canceled) => Err(canceled),
        Ok(module) => {
            let params = params_of(answers, f);
            match bind_params(answers, module, params, params.len()) {
                Err(canceled) => Err(canceled),
                Ok(types) => match (answers.fn_syntax)(f).body {
                    None => Ok(types),
                    Some(body) => {
                        let env = Env { answers, scopes: (answers.fn_scopes)(f), module };
                        let (after, ty) = visit_block(env, body, types);
                        match ty {
                            Err(canceled) => Err(canceled),
                            Ok(_) => Ok(after),
                        }
                    },
                },
            }
        },
    }
}

} // verus!
