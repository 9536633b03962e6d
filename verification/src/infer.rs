//! Type inference.

use crate::ast::Block;
use crate::ast::Expr;
use crate::ast::ExprKind;
use crate::ast::LocalSyntaxPtr;
use crate::ast::MatchArm;
use crate::ast::NameRef;
use crate::ast::NamedField;
use crate::ast::Path as AstPath;
use crate::ast::Stmt;
use crate::ast::SyntaxNodeRef;
use crate::ast::ptr_to;
use crate::ast::Param;
use crate::db::Answers;
use crate::db::Cancelable;
use crate::db::Canceled;
use crate::db::HirDatabase;
use crate::db::ty_answer;
use crate::hir::Def;
use crate::hir::FnScopes;
use crate::hir::Function;
use crate::hir::Module;
use crate::hir::Path;
use crate::hir::VariantData;
use crate::hir::VariantModel;
use crate::index::parse_index;
use crate::lower::params_of;
use crate::lower::type_for_struct;
use crate::rules::Env;
use crate::rules::Part;
use crate::rules::bind_params;
use crate::rules::block_part;
use crate::rules::expr_part;
use crate::rules::field_type;
use crate::rules::fn_types;
use crate::rules::iterable_part;
use crate::rules::join;
use crate::rules::lemma_part_smaller;
use crate::rules::opening;
use crate::rules::parts;
use crate::rules::path_expr_type;
use crate::rules::record;
use crate::rules::variant;
use crate::rules::visit_block;
use crate::rules::visit_block_opt;
use crate::rules::visit_expr;
use crate::rules::visit_expr_opt;
use crate::rules::visit_parts;
use crate::rules::visit_stmt;
use crate::rules::visit_stmts;
use crate::table::TypeTable;
use crate::table::Types;
use crate::ty::Ty;
use crate::ty::TyModel;
use crate::ty::lemma_ty_model_lists;
use std::sync::Arc;
use vstd::prelude::*;

verus! {

/// The mathematical value of an optional type.
pub open spec fn opt_ty_model(ty: Option<Ty>) -> Option<TyModel> {
    match ty {
        Some(ty) => Some(ty@),
        None => None,
    }
}

/// The mathematical value of an answer that is an optional type.
pub open spec fn opt_ty_answer(answer: Cancelable<Option<Ty>>) -> Cancelable<Option<TyModel>> {
    match answer {
        Ok(ty) => Ok(opt_ty_model(ty)),
        Err(canceled) => Err(canceled),
    }
}

/// The mathematical value of an answer that is a struct's type and its fields.
pub open spec fn literal_answer(
    answer: Cancelable<(Ty, Option<Arc<VariantData>>)>,
) -> Cancelable<(TyModel, Option<VariantModel>)> {
    match answer {
        Ok((ty, Some(data))) => Ok((ty@, Some(data@))),
        Ok((ty, None)) => Ok((ty@, None)),
        Err(canceled) => Err(canceled),
    }
}

/// An expression is canceled as soon as one of its parts is.
proof fn lemma_canceled_parts(env: Env, expr: Expr, types: Types)
    requires
        opening(env, expr) is Ok,
    ensures
        forall|n: nat|
            n <= parts(expr).len() && (#[trigger] visit_parts(env, expr, n, types)).1 is Err
                ==> visit_expr(env, expr, types) == (
                visit_parts(env, expr, n, types).0,
                Err::<TyModel, Canceled>(Canceled),
            ),
{
    assert forall|n: nat|
        n <= parts(expr).len() && (#[trigger] visit_parts(env, expr, n, types)).1
            is Err implies visit_expr(env, expr, types) == (
        visit_parts(env, expr, n, types).0,
        Err::<TyModel, Canceled>(Canceled),
    ) by {
        lemma_canceled_parts_stay(env, expr, n, parts(expr).len(), types);
    }
}

/// Once one of the parts of an expression is canceled, no further part is inferred.
proof fn lemma_canceled_parts_stay(env: Env, expr: Expr, n: nat, m: nat, types: Types)
    requires
        n <= m <= parts(expr).len(),
        visit_parts(env, expr, n, types).1 is Err,
    ensures
        visit_parts(env, expr, m, types) == visit_parts(env, expr, n, types),
    decreases m,
{
    if n < m {
        lemma_canceled_parts_stay(env, expr, n, (m - 1) as nat, types);
    }
}

/// A block is canceled as soon as one of its statements is.
proof fn lemma_canceled_stmts(env: Env, block: Block, n: nat, types: Types)
    requires
        n <= block.statements@.len(),
    ensures
        visit_stmts(env, block, n, types).1 is Err ==> visit_block(env, block, types) == (
            visit_stmts(env, block, n, types).0,
            Err::<TyModel, Canceled>(Canceled),
        ),
{
    if visit_stmts(env, block, n, types).1 is Err {
        lemma_canceled_stmts_stay(env, block, n, block.statements@.len(), types);
    }
}

/// Once a statement of a block is canceled, no further statement is inferred.
proof fn lemma_canceled_stmts_stay(env: Env, block: Block, n: nat, m: nat, types: Types)
    requires
        n <= m <= block.statements@.len(),
        visit_stmts(env, block, n, types).1 is Err,
    ensures
        visit_stmts(env, block, m, types) == visit_stmts(env, block, n, types),
    decreases m,
{
    if n < m {
        lemma_canceled_stmts_stay(env, block, n, (m - 1) as nat, types);
    }
}

/// The types that were inferred for the nodes of a function.
#[derive(PartialEq, Eq, Debug)]
pub struct InferenceResult {
    type_of: TypeTable,
}

impl View for InferenceResult {
    type V = Types;

    closed spec fn view(&self) -> Types {
        self.type_of@
    }
}

impl Clone for InferenceResult {
    fn clone(&self) -> (copy: InferenceResult)
        ensures
            copy@ == self@,
    {
        InferenceResult { type_of: self.type_of.clone() }
    }
}

impl InferenceResult {
    /// The type of a node, where one was inferred.
    pub fn type_of_node(&self, node: SyntaxNodeRef) -> (ty: Option<Ty>)
        ensures
            opt_ty_model(ty) == (if self@.contains_key(ptr_to(node)) {
                Some(self@[ptr_to(node)])
            } else {
                None
            }),
    {
        match self.type_of.get(LocalSyntaxPtr::new(node)) {
            Some(ty) => Some(ty.clone()),
            None => None,
        }
    }
}

/// The state of the inference of a function body.
#[derive(Debug)]
pub struct InferenceContext<'a, D: HirDatabase> {
    db: &'a D,
    scopes: Arc<FnScopes>,
    module: Module,
    type_of: TypeTable,
}

impl<'a, D: HirDatabase> InferenceContext<'a, D> {
    /// What the inference has to go by.
    pub closed spec fn env(&self) -> Env {
        Env { answers: self.db.answers(), scopes: self.scopes.uses@, module: self.module }
    }

    /// The types recorded so far.
    pub closed spec fn types(&self) -> Types {
        self.type_of@
    }

    /// A context in which nothing has been inferred yet.
    pub fn new(db: &'a D, scopes: Arc<FnScopes>, module: Module) -> (ctx: Self)
        ensures
            ctx.env() == (Env { answers: db.answers(), scopes: scopes.uses@, module }),
            ctx.types() == Types::empty(),
    {
        InferenceContext { type_of: TypeTable::new(), db, scopes, module }
    }

    /// Records the type of a node.
    pub fn write_ty(&mut self, node: SyntaxNodeRef, ty: Ty)
        ensures
            final(self).env() == old(self).env(),
            final(self).types() == record(old(self).types(), node, ty@),
    {
        self.type_of.insert(LocalSyntaxPtr::new(node), ty);
    }

    /// The type that two types agree on, where they agree.
    pub fn unify(&self, ty1: &Ty, ty2: &Ty) -> (ty: Option<Ty>)
        ensures
            opt_ty_model(ty) == join(ty1@, ty2@),
    {
        if *ty1 == Ty::Unknown {
            return Some(ty2.clone());
        }
        if *ty2 == Ty::Unknown {
            return Some(ty1.clone());
        }
        if ty1 == ty2 {
            return Some(ty1.clone());
        }
        None
    }

    /// The type of a value of type `ty1` where a `ty2` is expected. Nothing is coerced yet.
    pub fn unify_with_coercion(&self, ty1: &Ty, ty2: &Ty) -> (ty: Option<Ty>)
        ensures
            opt_ty_model(ty) == join(ty1@, ty2@),
    {
        self.unify(ty1, ty2)
    }

    /// The type of a path expression, where it has one.
    pub fn infer_path_expr(&self, path: &Option<AstPath>) -> (ty: Cancelable<Option<Ty>>)
        ensures
            opt_ty_answer(ty) == path_expr_type(self.env(), self.types(), *path),
    {
        let ast_path = match path {
            Some(ast_path) => ast_path,
            None => return Ok(None),
        };
        let path = match Path::from_ast(ast_path) {
            Some(path) => path,
            None => return Ok(None),
        };
        if path.is_ident() {
            // resolve locally
            let name = match &ast_path.segment {
                Some(segment) => match &segment.name_ref {
                    Some(name) => name,
                    None => return Ok(None),
                },
                None => return Ok(None),
            };
            if let Some(scope_entry) = self.scopes.resolve_local_name(name) {
                return match self.type_of.get(scope_entry.ptr()) {
                    Some(ty) => Ok(Some(ty.clone())),
                    None => Ok(None),
                };
            }
        }
        // resolve in module

        let resolved = match self.db.resolve_path(self.module, path)?.take_values() {
            Some(resolved) => resolved,
            None => return Ok(None),
        };
        let ty = self.db.type_for_def(resolved)?;
        Ok(Some(ty))
    }

    /// The struct that a struct literal names: its type, and its fields.
    pub fn resolve_variant(&self, path: &Option<AstPath>) -> (found: Cancelable<
        (Ty, Option<Arc<VariantData>>),
    >)
        ensures
            literal_answer(found) == variant(self.env(), *path),
    {
        let path = match path {
            Some(path) => match Path::from_ast(path) {
                Some(path) => path,
                None => return Ok((Ty::Unknown, None)),
            },
            None => return Ok((Ty::Unknown, None)),
        };
        let def_id = match self.db.resolve_path(self.module, path)?.take_types() {
            Some(def_id) => def_id,
            None => return Ok((Ty::Unknown, None)),
        };
        Ok(
            match self.db.resolve_def(def_id)? {
                Def::Struct(s) => {
                    let struct_data = self.db.struct_data(def_id)?;
                    let ty = type_for_struct(self.db, s)?;
                    (ty, Some(struct_data.variant_data().clone()))
                },
                _ => (Ty::Unknown, None),
            },
        )
    }

    /// The type of a field of a value of type `receiver`.
    pub fn field_ty(&self, receiver: &Ty, name_ref: &Option<NameRef>) -> (ty: Cancelable<Ty>)
        ensures
            ty_answer(ty) == field_type(self.env(), receiver@, *name_ref),
    {
        broadcast use lemma_ty_model_lists;

        let name_ref = match name_ref {
            Some(name_ref) => name_ref,
            None => return Ok(Ty::Unknown),
        };
        let text = name_ref.text.as_str();
        Ok(
            match receiver {
                Ty::Tuple(fields) => match parse_index(text) {
                    Some(i) => if i < fields.len() {
                        fields[i].clone()
                    } else {
                        Ty::Unknown
                    },
                    None => Ty::Unknown,
                },
                Ty::Adt { def_id, name: _ } => {
                    let field_ty = match self.db.resolve_def(*def_id)? {
                        Def::Struct(s) => self.db.struct_variant_data(s)?.get_field_ty(text),
                        _ => None,
                    };
                    match field_ty {
                        Some(field_ty) => field_ty,
                        None => Ty::Unknown,
                    }
                },
                _ => Ty::Unknown,
            },
        )
    }

    /// Infers an expression, where there is one.
    pub fn infer_expr_opt(&mut self, expr: &Option<Box<Expr>>) -> (ty: Cancelable<Ty>)
        ensures
            final(self).env() == old(self).env(),
            (final(self).types(), ty_answer(ty)) == visit_expr_opt(
                old(self).env(),
                *expr,
                old(self).types(),
            ),
        decreases expr, 1nat,
    {
        match expr {
            Some(e) => self.infer_expr(e),
            None => Ok(Ty::Unknown),
        }
    }

    /// Infers a block, where there is one.
    pub fn infer_block_opt(&mut self, node: &Option<Block>) -> (ty: Cancelable<Ty>)
        ensures
            final(self).env() == old(self).env(),
            (final(self).types(), ty_answer(ty)) == visit_block_opt(
                old(self).env(),
                *node,
                old(self).types(),
            ),
        decreases node, 1nat,
    {
        match node {
            Some(b) => self.infer_block(b),
            None => Ok(Ty::Unknown),
        }
    }

    /// Infers a block: records the types of its nodes, and returns its own.
    pub fn infer_block(&mut self, node: &Block) -> (ty: Cancelable<Ty>)
        ensures
            final(self).env() == old(self).env(),
            (final(self).types(), ty_answer(ty)) == visit_block(
                old(self).env(),
                *node,
                old(self).types(),
            ),
        decreases node, 1nat,
    {
        let ghost env = self.env();
        let ghost start = self.types();
        let mut i: usize = 0;
        while i < node.statements.len()
            invariant
                i <= node.statements.len(),
                env == old(self).env(),
                start == old(self).types(),
                self.env() == env,
                visit_stmts(env, *node, i as nat, start) == (
                    self.types(),
                    Ok::<(), Canceled>(()),
                ),
            decreases node.statements.len() - i,
        {
            let stmt = &node.statements[i];
            proof {
                lemma_canceled_stmts(env, *node, (i + 1) as nat, start);
                assert(decreases_to!(node => node.statements@[i as int]));
            }
            let ghost next = visit_stmts(env, *node, (i + 1) as nat, start);
            let ghost step = visit_stmt(env, *stmt, self.types());
            match stmt {
                Stmt::LetStmt { pat, type_ref, initializer } => {
                    let decl_ty = Ty::new_opt(self.db, &self.module, type_ref)?;
                    let ty = match initializer {
                        Some(expr) => {
                            let expr_ty = self.infer_expr(expr)?;
                            match self.unify_with_coercion(&expr_ty, &decl_ty) {
                                Some(ty) => ty,
                                None => decl_ty,
                            }
                        },
                        None => decl_ty,
                    };
                    if let Some(pat) = pat {
                        self.write_ty(pat.syntax, ty);
                    }
                },
                Stmt::ExprStmt { expr } => {
                    self.infer_expr_opt(expr)?;
                },
            }
            i = i + 1;
        }
        let ty = match &node.expr {
            Some(expr) => self.infer_expr(expr)?,
            None => Ty::unit(),
        };
        self.write_ty(node.syntax, ty.clone());
        Ok(ty)
    }

    /// Infers an expression: records the types of its nodes, and returns its own.
    pub fn infer_expr(&mut self, expr: &Expr) -> (ty: Cancelable<Ty>)
        ensures
            final(self).env() == old(self).env(),
            (final(self).types(), ty_answer(ty)) == visit_expr(
                old(self).env(),
                *expr,
                old(self).types(),
            ),
        decreases expr, 2nat,
    {
        broadcast use lemma_ty_model_lists;

        let ghost env = self.env();
        let ghost start = self.types();
        let ghost none = visit_parts(env, *expr, 0, start);
        let ghost one = visit_parts(env, *expr, 1, start);
        let ty = match &expr.kind {
            ExprKind::IfExpr { condition, then_branch, else_branch } => {
                if let Some(condition) = condition {
                    self.infer_expr_part(expr, &condition.expr, Ghost(0), Ghost(start))?;
                }
                let if_ty = self.infer_block_part(expr, then_branch, Ghost(1), Ghost(start))?;
                let else_ty = self.infer_block_part(expr, else_branch, Ghost(2), Ghost(start))?;
                match self.unify(&if_ty, &else_ty) {
                    Some(ty) => ty,
                    None => Ty::Unknown,
                }
            },
            ExprKind::BlockExpr { block } => {
                self.infer_block_part(expr, block, Ghost(0), Ghost(start))?
            },
            ExprKind::LoopExpr { loop_body } => {
                self.infer_block_part(expr, loop_body, Ghost(0), Ghost(start))?;
                Ty::Unknown
            },
            ExprKind::WhileExpr { condition, loop_body } => {
                if let Some(condition) = condition {
                    self.infer_expr_part(expr, &condition.expr, Ghost(0), Ghost(start))?;
                }
                self.infer_block_part(expr, loop_body, Ghost(1), Ghost(start))?;
                Ty::Unknown
            },
            ExprKind::ForExpr { pat: _, iterable, loop_body } => {
                self.infer_iterable_part(expr, iterable, Ghost(start));
                self.infer_block_part(expr, loop_body, Ghost(1), Ghost(start))?;
                Ty::Unknown
            },
            ExprKind::LambdaExpr { body } => {
                let _body_ty = self.infer_expr_part(expr, body, Ghost(0), Ghost(start))?;
                Ty::Unknown
            },
            ExprKind::CallExpr { expr: callee, arg_list } => {
                let callee_ty = self.infer_expr_part(expr, callee, Ghost(0), Ghost(start))?;
                if let Some(arg_list) = arg_list {
                    self.infer_args(expr, &arg_list.args, Ghost(start))?;
                }
                match callee_ty {
                    Ty::FnPtr(sig) => sig.output.clone(),
                    _ => Ty::Unknown,
                }
            },
            ExprKind::MethodCallExpr { expr: receiver, arg_list } => {
                let _receiver_ty = self.infer_expr_part(expr, receiver, Ghost(0), Ghost(start))?;
                if let Some(arg_list) = arg_list {
                    self.infer_args(expr, &arg_list.args, Ghost(start))?;
                }
                Ty::Unknown
            },
            ExprKind::MatchExpr { expr: scrutinee, match_arm_list } => {
                let _ty = self.infer_expr_part(expr, scrutinee, Ghost(0), Ghost(start))?;
                if let Some(match_arm_list) = match_arm_list {
                    self.infer_arms(expr, &match_arm_list.arms, Ghost(start))?;
                }
                Ty::Unknown
            },
            ExprKind::TupleExpr => Ty::Unknown,
            ExprKind::ArrayExpr => Ty::Unknown,
            ExprKind::PathExpr { path } => match self.infer_path_expr(path)? {
                Some(ty) => ty,
                None => Ty::Unknown,
            },
            ExprKind::ContinueExpr => Ty::Never,
            ExprKind::BreakExpr => Ty::Never,
            ExprKind::ParenExpr { expr: inner } => {
                self.infer_expr_part(expr, inner, Ghost(0), Ghost(start))?
            },
            ExprKind::Label => Ty::Unknown,
            ExprKind::ReturnExpr { expr: inner } => {
                self.infer_expr_part(expr, inner, Ghost(0), Ghost(start))?;
                Ty::Never
            },
            // Can these even occur outside of a match expression?
            ExprKind::MatchArmList | ExprKind::MatchArm | ExprKind::MatchGuard => Ty::Unknown,
            ExprKind::StructLit { path, named_field_list } => {
                let (ty, _variant_data) = self.resolve_variant(path)?;
                if let Some(nfl) = named_field_list {
                    self.infer_fields(expr, &nfl.fields, Ghost(start))?;
                }
                ty
            },
            // Can these even occur outside of a struct literal?
            ExprKind::NamedFieldList | ExprKind::NamedField => Ty::Unknown,
            ExprKind::IndexExpr => Ty::Unknown,
            ExprKind::FieldExpr { expr: inner, name_ref } => {
                let receiver_ty = self.infer_expr_part(expr, inner, Ghost(0), Ghost(start))?;
                self.field_ty(&receiver_ty, name_ref)?
            },
            ExprKind::TryExpr { expr: inner } => {
                let _inner_ty = self.infer_expr_part(expr, inner, Ghost(0), Ghost(start))?;
                Ty::Unknown
            },
            ExprKind::CastExpr { expr: inner, type_ref } => {
                let _inner_ty = self.infer_expr_part(expr, inner, Ghost(0), Ghost(start))?;
                Ty::new_opt(self.db, &self.module, type_ref)?
            },
            ExprKind::RefExpr { expr: inner } => {
                let _inner_ty = self.infer_expr_part(expr, inner, Ghost(0), Ghost(start))?;
                Ty::Unknown
            },
            ExprKind::PrefixExpr { expr: inner } => {
                let _inner_ty = self.infer_expr_part(expr, inner, Ghost(0), Ghost(start))?;
                Ty::Unknown
            },
            ExprKind::RangeExpr => Ty::Unknown,
            ExprKind::BinExpr => Ty::Unknown,
            ExprKind::Literal => Ty::Unknown,
        };
        self.write_ty(expr.syntax, ty.clone());
        Ok(ty)
    }

    /// Infers the part of an expression that stands behind the first `n` parts.
    fn infer_expr_part(
        &mut self,
        expr: &Expr,
        part: &Option<Box<Expr>>,
        Ghost(n): Ghost<nat>,
        Ghost(start): Ghost<Types>,
    ) -> (ty: Cancelable<Ty>)
        requires
            opening(old(self).env(), *expr) is Ok,
            n < parts(*expr).len(),
            parts(*expr)[n as int] == expr_part(*part),
            visit_parts(old(self).env(), *expr, n, start).0 == old(self).types(),
            visit_parts(old(self).env(), *expr, n, start).1 is Ok,
        ensures
            final(self).env() == old(self).env(),
            match ty {
                Ok(ty) => visit_parts(old(self).env(), *expr, n + 1, start) == (
                    final(self).types(),
                    Ok::<_, Canceled>(
                        visit_parts(old(self).env(), *expr, n, start).1->Ok_0.push(ty@),
                    ),
                ),
                Err(canceled) => visit_expr(old(self).env(), *expr, start) == (
                    final(self).types(),
                    Err::<TyModel, _>(canceled),
                ),
            },
        decreases expr, 0nat,
    {
        proof {
            lemma_canceled_parts(self.env(), *expr, start);
            lemma_part_smaller(*expr, n as int);
        }
        let ghost next = visit_parts(self.env(), *expr, n + 1, start);
        match part {
            Some(part) => self.infer_expr(part),
            None => Ok(Ty::Unknown),
        }
    }

    /// Infers the block of an expression that stands behind the first `n` parts.
    fn infer_block_part(
        &mut self,
        expr: &Expr,
        part: &Option<Block>,
        Ghost(n): Ghost<nat>,
        Ghost(start): Ghost<Types>,
    ) -> (ty: Cancelable<Ty>)
        requires
            opening(old(self).env(), *expr) is Ok,
            n < parts(*expr).len(),
            parts(*expr)[n as int] == block_part(*part),
            visit_parts(old(self).env(), *expr, n, start).0 == old(self).types(),
            visit_parts(old(self).env(), *expr, n, start).1 is Ok,
        ensures
            final(self).env() == old(self).env(),
            match ty {
                Ok(ty) => visit_parts(old(self).env(), *expr, n + 1, start) == (
                    final(self).types(),
                    Ok::<_, Canceled>(
                        visit_parts(old(self).env(), *expr, n, start).1->Ok_0.push(ty@),
                    ),
                ),
                Err(canceled) => visit_expr(old(self).env(), *expr, start) == (
                    final(self).types(),
                    Err::<TyModel, _>(canceled),
                ),
            },
        decreases expr, 0nat,
    {
        proof {
            lemma_canceled_parts(self.env(), *expr, start);
            lemma_part_smaller(*expr, n as int);
        }
        let ghost next = visit_parts(self.env(), *expr, n + 1, start);
        match part {
            Some(part) => self.infer_block(part),
            None => Ok(Ty::Unknown),
        }
    }

    /// Infers the iterable of a `for` loop. What comes of it does not matter to the loop.
    fn infer_iterable_part(
        &mut self,
        expr: &Expr,
        part: &Option<Box<Expr>>,
        Ghost(start): Ghost<Types>,
    )
        requires
            opening(old(self).env(), *expr) is Ok,
            0 < parts(*expr).len(),
            parts(*expr)[0] == iterable_part(*part),
            start == old(self).types(),
        ensures
            final(self).env() == old(self).env(),
            visit_parts(old(self).env(), *expr, 1, start) == (
                final(self).types(),
                Ok::<_, Canceled>(seq![TyModel::Unknown]),
            ),
        decreases expr, 0nat,
    {
        proof {
            lemma_part_smaller(*expr, 0);
        }
        let ghost none = visit_parts(self.env(), *expr, 0, start);
        let ghost one = visit_parts(self.env(), *expr, 1, start);
        if let Some(iterable) = part {
            let _iterable_ty = self.infer_expr(iterable);
        }
        assert(Seq::<TyModel>::empty().push(TyModel::Unknown) =~= seq![TyModel::Unknown]);
    }

    /// Infers the arguments of a call, behind its callee.
    fn infer_args(
        &mut self,
        expr: &Expr,
        args: &Vec<Expr>,
        Ghost(start): Ghost<Types>,
    ) -> (done: Cancelable<()>)
        requires
            opening(old(self).env(), *expr) is Ok,
            parts(*expr).len() == args@.len() + 1,
            forall|j: int|
                0 <= j < args@.len() ==> #[trigger] parts(*expr)[j + 1] == Part::Expr(args@[j]),
            visit_parts(old(self).env(), *expr, 1, start).0 == old(self).types(),
            visit_parts(old(self).env(), *expr, 1, start).1 is Ok,
        ensures
            final(self).env() == old(self).env(),
            match done {
                Ok(_) => {
                    let (seen, tys) = visit_parts(
                        old(self).env(),
                        *expr,
                        parts(*expr).len(),
                        start,
                    );
                    let (_, first) = visit_parts(old(self).env(), *expr, 1, start);
                    &&& seen == final(self).types()
                    &&& tys is Ok
                    &&& tys->Ok_0[0] == first->Ok_0[0]
                },
                Err(canceled) => visit_expr(old(self).env(), *expr, start) == (
                    final(self).types(),
                    Err::<TyModel, _>(canceled),
                ),
            },
        decreases expr, 0nat,
    {
        let ghost env = self.env();
        let ghost first = visit_parts(env, *expr, 1, start).1->Ok_0[0];
        let mut i: usize = 0;
        while i < args.len()
            invariant
                i <= args.len(),
                env == old(self).env(),
                self.env() == env,
                opening(env, *expr) is Ok,
                parts(*expr).len() == args@.len() + 1,
                forall|j: int|
                    0 <= j < args@.len() ==> #[trigger] parts(*expr)[j + 1] == Part::Expr(args@[j]),
                visit_parts(env, *expr, (i + 1) as nat, start).0 == self.types(),
                visit_parts(env, *expr, (i + 1) as nat, start).1 is Ok,
                visit_parts(env, *expr, (i + 1) as nat, start).1->Ok_0.len() > 0,
                visit_parts(env, *expr, (i + 1) as nat, start).1->Ok_0[0] == first,
            decreases args.len() - i,
        {
            proof {
                lemma_canceled_parts(env, *expr, start);
                lemma_part_smaller(*expr, i as int + 1);
                assert(parts(*expr)[i as int + 1] == Part::Expr(args@[i as int]));
            }
            let ghost next = visit_parts(env, *expr, (i + 2) as nat, start);
            self.infer_expr(&args[i])?;
            i = i + 1;
        }
        Ok(())
    }

    /// Infers the arms of a `match`, behind what is matched.
    fn infer_arms(
        &mut self,
        expr: &Expr,
        arms: &Vec<MatchArm>,
        Ghost(start): Ghost<Types>,
    ) -> (done: Cancelable<()>)
        requires
            opening(old(self).env(), *expr) is Ok,
            parts(*expr).len() == arms@.len() + 1,
            forall|j: int|
                0 <= j < arms@.len() ==> #[trigger] parts(*expr)[j + 1] == expr_part(arms@[j].expr),
            visit_parts(old(self).env(), *expr, 1, start).0 == old(self).types(),
            visit_parts(old(self).env(), *expr, 1, start).1 is Ok,
        ensures
            final(self).env() == old(self).env(),
            match done {
                Ok(_) => {
                    let (seen, tys) = visit_parts(
                        old(self).env(),
                        *expr,
                        parts(*expr).len(),
                        start,
                    );
                    &&& seen == final(self).types()
                    &&& tys is Ok
                },
                Err(canceled) => visit_expr(old(self).env(), *expr, start) == (
                    final(self).types(),
                    Err::<TyModel, _>(canceled),
                ),
            },
        decreases expr, 1nat,
    {
        let ghost env = self.env();
        let mut i: usize = 0;
        while i < arms.len()
            invariant
                i <= arms.len(),
                env == old(self).env(),
                self.env() == env,
                opening(env, *expr) is Ok,
                parts(*expr).len() == arms@.len() + 1,
                forall|j: int|
                    0 <= j < arms@.len() ==> #[trigger] parts(*expr)[j + 1] == expr_part(
                        arms@[j].expr,
                    ),
                visit_parts(env, *expr, (i + 1) as nat, start).0 == self.types(),
                visit_parts(env, *expr, (i + 1) as nat, start).1 is Ok,
            decreases arms.len() - i,
        {
            assert(parts(*expr)[i as int + 1] == expr_part(arms@[i as int].expr));
            self.infer_expr_part(expr, &arms[i].expr, Ghost((i + 1) as nat), Ghost(start))?;
            i = i + 1;
        }
        Ok(())
    }

    /// Infers the fields of a struct literal.
    fn infer_fields(
        &mut self,
        expr: &Expr,
        fields: &Vec<NamedField>,
        Ghost(start): Ghost<Types>,
    ) -> (done: Cancelable<()>)
        requires
            opening(old(self).env(), *expr) is Ok,
            parts(*expr).len() == fields@.len(),
            forall|j: int|
                0 <= j < fields@.len() ==> #[trigger] parts(*expr)[j] == expr_part(fields@[j].expr),
            visit_parts(old(self).env(), *expr, 0, start).0 == old(self).types(),
            visit_parts(old(self).env(), *expr, 0, start).1 is Ok,
        ensures
            final(self).env() == old(self).env(),
            match done {
                Ok(_) => {
                    let (seen, tys) = visit_parts(
                        old(self).env(),
                        *expr,
                        parts(*expr).len(),
                        start,
                    );
                    &&& seen == final(self).types()
                    &&& tys is Ok
                },
                Err(canceled) => visit_expr(old(self).env(), *expr, start) == (
                    final(self).types(),
                    Err::<TyModel, _>(canceled),
                ),
            },
        decreases expr, 1nat,
    {
        let ghost env = self.env();
        let mut i: usize = 0;
        while i < fields.len()
            invariant
                i <= fields.len(),
                env == old(self).env(),
                self.env() == env,
                opening(env, *expr) is Ok,
                parts(*expr).len() == fields@.len(),
                forall|j: int|
                    0 <= j < fields@.len() ==> #[trigger] parts(*expr)[j] == expr_part(
                        fields@[j].expr,
                    ),
                visit_parts(env, *expr, i as nat, start).0 == self.types(),
                visit_parts(env, *expr, i as nat, start).1 is Ok,
            decreases fields.len() - i,
        {
            assert(parts(*expr)[i as int] == expr_part(fields@[i as int].expr));
            self.infer_expr_part(expr, &fields[i].expr, Ghost(i as nat), Ghost(start))?;
            i = i + 1;
        }
        Ok(())
    }
}

impl<'a, D: HirDatabase> Clone for InferenceContext<'a, D> {
    fn clone(&self) -> (copy: Self)
        ensures
            copy.env() == self.env(),
            copy.types() == self.types(),
    {
        InferenceContext {
            db: self.db,
            scopes: self.scopes.clone(),
            module: self.module,
            type_of: self.type_of.clone(),
        }
    }
}

/// The mathematical value of an answer that is the types of a function's nodes.
pub open spec fn result_answer(answer: Cancelable<InferenceResult>) -> Cancelable<Types> {
    match answer {
        Ok(result) => Ok(result@),
        Err(canceled) => Err(canceled),
    }
}

/// Infers the types of the nodes of a function.
pub fn infer(db: &impl HirDatabase, function: Function) -> (result: Cancelable<InferenceResult>)
    ensures
        result_answer(result) == fn_types(db.answers(), function),
{
    let scopes = db.fn_scopes(function);
    let module = db.fn_module(function)?;
    let mut ctx = InferenceContext::new(db, scopes, module);
    let node = db.fn_syntax(function);
    let ghost env = ctx.env();
    let ghost params = params_of(db.answers(), function);
    if let Some(param_list) = &node.param_list {
        let mut i: usize = 0;
        while i < param_list.params.len()
            invariant
                i <= param_list.params.len(),
                params == param_list.params@,
                params == params_of(db.answers(), function),
                (db.answers().fn_module)(function) == Ok::<_, Canceled>(module),
                env.answers == db.answers(),
                env.module == module,
                ctx.env() == env,
                bind_params(db.answers(), module, params, i as nat) == Ok::<_, Canceled>(
                    ctx.types(),
                ),
            decreases param_list.params.len() - i,
        {
            let param = &param_list.params[i];
            proof {
                lemma_canceled_params(db.answers(), module, params, (i + 1) as nat);
            }
            if let Some(pat) = &param.pat {
                if let Some(type_ref) = &param.type_ref {
                    let ty = Ty::new(db, &ctx.module, type_ref)?;
                    ctx.write_ty(pat.syntax, ty);
                } else {
                    ctx.write_ty(pat.syntax, Ty::Unknown);
                }
            }
            i = i + 1;
        }
    }
    ctx.infer_block_opt(&node.body)?;
    Ok(InferenceResult { type_of: ctx.type_of })
}

/// The parameters are canceled as soon as one of them is.
proof fn lemma_canceled_params(answers: Answers, module: Module, params: Seq<Param>, n: nat)
    requires
        n <= params.len(),
    ensures
        bind_params(answers, module, params, n) is Err ==> bind_params(
            answers,
            module,
            params,
            params.len(),
        ) == Err::<Types, Canceled>(Canceled),
    decreases params.len() - n,
{
    if n < params.len() {
        lemma_canceled_params(answers, module, params, n + 1);
    }
}

} // verus!
