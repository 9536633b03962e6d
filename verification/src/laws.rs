//! What holds of type inference as a whole.

pub mod answers;
pub mod blocks;
pub mod exprs;
pub mod items;
pub mod names;
pub mod types;

use crate::ast::Block;
use crate::ast::Expr;
use crate::ast::ExprKind;
use crate::ast::LocalSyntaxPtr;
use crate::ast::NameRef;
use crate::ast::Param;
use crate::ast::Pat;
use crate::ast::Path as AstPath;
use crate::ast::Stmt;
use crate::ast::ptr_to;
use crate::db::Answers;
use crate::db::Canceled;
use crate::hir::Def;
use crate::hir::DefId;
use crate::hir::Enum;
use crate::hir::Function;
use crate::hir::Module;
use crate::hir::PathModel;
use crate::hir::Struct;
use crate::hir::local_entry;
use crate::hir::lowered_path;
use crate::lower::def_type;
use crate::lower::fn_type;
use crate::lower::number_type;
use crate::lower::params_of;
use crate::lower::path_type;
use crate::lower::ret_type_of;
use crate::lower::struct_type;
use crate::lower::written_type_opt;
use crate::primitive::float_name_round_trip;
use crate::primitive::int_name_round_trip;
use crate::primitive::named_type_has_that_name;
use crate::primitive::number_names_are_disjoint;
use crate::primitive::uint_name_round_trip;
use crate::rules::Env;
use crate::rules::Part;
use crate::rules::bind_params;
use crate::rules::branch_type;
use crate::rules::call_type;
use crate::rules::field_type;
use crate::rules::fn_types;
use crate::rules::join;
use crate::rules::lemma_part_smaller;
use crate::rules::let_type;
use crate::rules::parts;
use crate::rules::path_name;
use crate::rules::visit_block;
use crate::rules::visit_expr;
use crate::rules::visit_parts;
use crate::rules::visit_stmt;
use crate::rules::visit_stmts;
use crate::table::Types;
use crate::ty::TyModel;
use crate::ty::ty_text;
use vstd::prelude::*;

verus! {

/// The unknown type agrees with every type, and leaves it as it is.
pub proof fn join_unknown_is_neutral(ty: TyModel)
    ensures
        join(TyModel::Unknown, ty) == Some(ty),
        join(ty, TyModel::Unknown) == Some(ty),
{
}

/// Every type agrees with itself.
pub proof fn join_is_idempotent(ty: TyModel)
    ensures
        join(ty, ty) == Some(ty),
{
}

/// The order of two types does not matter to what they agree on.
pub proof fn join_is_commutative(a: TyModel, b: TyModel)
    ensures
        join(a, b) == join(b, a),
{
}

/// What two types agree on, each of them agrees with.
pub proof fn join_is_an_upper_bound(a: TyModel, b: TyModel)
    ensures
        join(a, b) matches Some(ty) ==> join(a, ty) == Some(ty) && join(b, ty) == Some(ty),
{
}

/// What three types agree on does not depend on which two of them are taken first.
pub proof fn join_is_associative(a: TyModel, b: TyModel, c: TyModel)
    ensures
        (match join(a, b) {
            Some(ab) => join(ab, c),
            None => None,
        }) == (match join(b, c) {
            Some(bc) => join(a, bc),
            None => None,
        }),
{
}

/// The branches of an `if` count alike, and one of an unknown type does not count at all.
pub proof fn branches_count_alike(a: TyModel, b: TyModel)
    ensures
        branch_type(a, b) == branch_type(b, a),
        branch_type(a, TyModel::Unknown) == a,
{
}

/// A `let` pattern has the declared type, where that is known, and else that of the initializer.
pub proof fn declared_type_wins(init_ty: TyModel, decl_ty: TyModel)
    ensures
        let_type(init_ty, decl_ty) == (if decl_ty == TyModel::Unknown {
            init_ty
        } else {
            decl_ty
        }),
{
}

/// The unknown type is passed on: by a call of a value of it, by access to a field of such a
/// value, and by whatever it is compared with. No question is asked about it.
pub proof fn unknown_is_passed_on(env: Env, name: Option<NameRef>)
    ensures
        call_type(TyModel::Unknown) == TyModel::Unknown,
        field_type(env, TyModel::Unknown, name) == Ok::<_, Canceled>(TyModel::Unknown),
        branch_type(TyModel::Unknown, TyModel::Unknown) == TyModel::Unknown,
        let_type(TyModel::Unknown, TyModel::Unknown) == TyModel::Unknown,
{
}

/// The nodes of an expression for which inference records a type.
pub open spec fn expr_nodes(expr: Expr) -> Set<LocalSyntaxPtr>
    decreases expr, 1nat, 0nat,
{
    part_nodes(expr, parts(expr).len()).insert(ptr_to(expr.syntax))
}

/// The nodes of the first `n` parts of an expression.
pub open spec fn part_nodes(expr: Expr, n: nat) -> Set<LocalSyntaxPtr>
    decreases expr, 0nat, n,
{
    if n == 0 || n > parts(expr).len() {
        Set::empty()
    } else {
        proof {
            lemma_part_smaller(expr, n - 1);
        }
        let nodes = part_nodes(expr, (n - 1) as nat);
        match parts(expr)[n - 1] {
            Part::Missing => nodes,
            Part::Expr(e) => nodes.union(expr_nodes(e)),
            Part::Iterable(e) => nodes.union(expr_nodes(e)),
            Part::Block(b) => nodes.union(block_nodes(b)),
        }
    }
}

/// The nodes of a block for which inference records a type.
pub open spec fn block_nodes(block: Block) -> Set<LocalSyntaxPtr>
    decreases block, 1nat, 0nat,
{
    let nodes = stmts_nodes(block, block.statements@.len());
    match block.expr {
        Some(e) => nodes.union(expr_nodes(*e)).insert(ptr_to(block.syntax)),
        None => nodes.insert(ptr_to(block.syntax)),
    }
}

/// The nodes of the first `n` statements of a block.
pub open spec fn stmts_nodes(block: Block, n: nat) -> Set<LocalSyntaxPtr>
    decreases block, 0nat, n,
{
    if n == 0 || n > block.statements@.len() {
        Set::empty()
    } else {
        stmts_nodes(block, (n - 1) as nat).union(stmt_nodes(block.statements@[n - 1]))
    }
}

/// The nodes of a statement: those of its expression, and the pattern of a `let`.
pub open spec fn stmt_nodes(stmt: Stmt) -> Set<LocalSyntaxPtr>
    decreases stmt, 1nat, 0nat,
{
    match stmt {
        Stmt::LetStmt { pat, type_ref, initializer } => match initializer {
            Some(e) => expr_nodes(*e).union(pat_nodes(pat)),
            None => pat_nodes(pat),
        },
        Stmt::ExprStmt { expr } => match expr {
            Some(e) => expr_nodes(*e),
            None => Set::empty(),
        },
    }
}

/// The node of a pattern, where there is one.
pub open spec fn pat_nodes(pat: Option<Pat>) -> Set<LocalSyntaxPtr> {
    match pat {
        Some(p) => Set::empty().insert(ptr_to(p.syntax)),
        None => Set::empty(),
    }
}

/// The nodes of an expression that stand outside the iterables of `for` loops.
pub open spec fn outer_expr_nodes(expr: Expr) -> Set<LocalSyntaxPtr>
    decreases expr, 1nat, 0nat,
{
    outer_part_nodes(expr, parts(expr).len()).insert(ptr_to(expr.syntax))
}

/// The nodes of the first `n` parts of an expression, outside the iterables of `for` loops.
pub open spec fn outer_part_nodes(expr: Expr, n: nat) -> Set<LocalSyntaxPtr>
    decreases expr, 0nat, n,
{
    if n == 0 || n > parts(expr).len() {
        Set::empty()
    } else {
        proof {
            lemma_part_smaller(expr, n - 1);
        }
        let nodes = outer_part_nodes(expr, (n - 1) as nat);
        match parts(expr)[n - 1] {
            Part::Missing => nodes,
            Part::Expr(e) => nodes.union(outer_expr_nodes(e)),
            Part::Iterable(_) => nodes,
            Part::Block(b) => nodes.union(outer_block_nodes(b)),
        }
    }
}

/// The nodes of a block that stand outside the iterables of `for` loops.
pub open spec fn outer_block_nodes(block: Block) -> Set<LocalSyntaxPtr>
    decreases block, 1nat, 0nat,
{
    let nodes = outer_stmts_nodes(block, block.statements@.len());
    match block.expr {
        Some(e) => nodes.union(outer_expr_nodes(*e)).insert(ptr_to(block.syntax)),
        None => nodes.insert(ptr_to(block.syntax)),
    }
}

/// The nodes of the first `n` statements of a block, outside the iterables of `for` loops.
pub open spec fn outer_stmts_nodes(block: Block, n: nat) -> Set<LocalSyntaxPtr>
    decreases block, 0nat, n,
{
    if n == 0 || n > block.statements@.len() {
        Set::empty()
    } else {
        outer_stmts_nodes(block, (n - 1) as nat).union(outer_stmt_nodes(block.statements@[n - 1]))
    }
}

/// The nodes of a statement that stand outside the iterables of `for` loops.
pub open spec fn outer_stmt_nodes(stmt: Stmt) -> Set<LocalSyntaxPtr>
    decreases stmt, 1nat, 0nat,
{
    match stmt {
        Stmt::LetStmt { pat, type_ref, initializer } => match initializer {
            Some(e) => outer_expr_nodes(*e).union(pat_nodes(pat)),
            None => pat_nodes(pat),
        },
        Stmt::ExprStmt { expr } => match expr {
            Some(e) => outer_expr_nodes(*e),
            None => Set::empty(),
        },
    }
}

/// The nodes of an expression, without those inside an iterable whose inference is canceled.
pub open spec fn settled_expr_nodes(env: Env, expr: Expr, types: Types) -> Set<LocalSyntaxPtr>
    decreases expr, 1nat, 0nat,
{
    settled_part_nodes(env, expr, parts(expr).len(), types).insert(ptr_to(expr.syntax))
}

/// The nodes of the first `n` parts of an expression, without those inside an iterable whose
/// inference is canceled.
pub open spec fn settled_part_nodes(env: Env, expr: Expr, n: nat, types: Types) -> Set<
    LocalSyntaxPtr,
>
    decreases expr, 0nat, n,
{
    if n == 0 || n > parts(expr).len() {
        Set::empty()
    } else {
        proof {
            lemma_part_smaller(expr, n - 1);
        }
        let nodes = settled_part_nodes(env, expr, (n - 1) as nat, types);
        let seen = visit_parts(env, expr, (n - 1) as nat, types).0;
        match parts(expr)[n - 1] {
            Part::Missing => nodes,
            Part::Expr(e) => nodes.union(settled_expr_nodes(env, e, seen)),
            Part::Iterable(e) => if visit_expr(env, e, seen).1 is Ok {
                nodes.union(settled_expr_nodes(env, e, seen))
            } else {
                nodes
            },
            Part::Block(b) => nodes.union(settled_block_nodes(env, b, seen)),
        }
    }
}

/// The nodes of a block, without those inside an iterable whose inference is canceled.
pub open spec fn settled_block_nodes(env: Env, block: Block, types: Types) -> Set<LocalSyntaxPtr>
    decreases block, 1nat, 0nat,
{
    let nodes = settled_stmts_nodes(env, block, block.statements@.len(), types);
    let seen = visit_stmts(env, block, block.statements@.len(), types).0;
    match block.expr {
        Some(e) => nodes.union(settled_expr_nodes(env, *e, seen)).insert(ptr_to(block.syntax)),
        None => nodes.insert(ptr_to(block.syntax)),
    }
}

/// The nodes of the first `n` statements of a block, without those inside an iterable whose
/// inference is canceled.
pub open spec fn settled_stmts_nodes(env: Env, block: Block, n: nat, types: Types) -> Set<
    LocalSyntaxPtr,
>
    decreases block, 0nat, n,
{
    if n == 0 || n > block.statements@.len() {
        Set::empty()
    } else {
        settled_stmts_nodes(env, block, (n - 1) as nat, types).union(
            settled_stmt_nodes(
                env,
                block.statements@[n - 1],
                visit_stmts(env, block, (n - 1) as nat, types).0,
            ),
        )
    }
}

/// The nodes of a statement, without those inside an iterable whose inference is canceled.
pub open spec fn settled_stmt_nodes(env: Env, stmt: Stmt, types: Types) -> Set<LocalSyntaxPtr>
    decreases stmt, 1nat, 0nat,
{
    match stmt {
        Stmt::LetStmt { pat, type_ref, initializer } => match initializer {
            Some(e) => settled_expr_nodes(env, *e, types).union(pat_nodes(pat)),
            None => pat_nodes(pat),
        },
        Stmt::ExprStmt { expr } => match expr {
            Some(e) => settled_expr_nodes(env, *e, types),
            None => Set::empty(),
        },
    }
}

/// Whether types were recorded for some of the given nodes, and nothing else was changed.
pub open spec fn recorded_within(
    before: Types,
    after: Types,
    nodes: Set<LocalSyntaxPtr>,
) -> bool {
    &&& forall|ptr: LocalSyntaxPtr|
        before.contains_key(ptr) ==> #[trigger] after.contains_key(ptr)
    &&& forall|ptr: LocalSyntaxPtr| #[trigger]
        after.contains_key(ptr) ==> before.contains_key(ptr) || nodes.contains(ptr)
    &&& forall|ptr: LocalSyntaxPtr|
        before.contains_key(ptr) && !nodes.contains(ptr) ==> #[trigger] after[ptr] == before[ptr]
}

/// Whether each of the given nodes has a type.
pub open spec fn all_recorded(types: Types, nodes: Set<LocalSyntaxPtr>) -> bool {
    forall|ptr: LocalSyntaxPtr| #[trigger] nodes.contains(ptr) ==> types.contains_key(ptr)
}

/// Whether a database answers every question.
pub open spec fn never_cancels(answers: Answers) -> bool {
    &&& forall|module: Module, path: PathModel|
        (#[trigger] (answers.resolve_path)(module, path)) is Ok
    &&& forall|def_id: DefId| (#[trigger] (answers.type_for_def)(def_id)) is Ok
    &&& forall|def_id: DefId| (#[trigger] (answers.resolve_def)(def_id)) is Ok
    &&& forall|def_id: DefId| (#[trigger] (answers.struct_data)(def_id)) is Ok
    &&& forall|s: Struct| (#[trigger] (answers.struct_name)(s)) is Ok
    &&& forall|s: Struct| (#[trigger] (answers.struct_variant_data)(s)) is Ok
    &&& forall|e: Enum| (#[trigger] (answers.enum_name)(e)) is Ok
    &&& forall|f: Function| (#[trigger] (answers.fn_module)(f)) is Ok
}

/// Inferring an expression forgets no type, and records types only for nodes of the expression;
/// this holds when it is canceled, too. When it succeeds, every node of the expression has a
/// type, except inside the iterable of a `for` loop whose inference was canceled; in particular,
/// every node outside the iterables of `for` loops has one. Where no question is canceled, it
/// succeeds, and every node of the expression has a type.
pub proof fn infer_expr_covers_its_nodes(env: Env, expr: Expr, types: Types)
    ensures
        recorded_within(types, visit_expr(env, expr, types).0, expr_nodes(expr)),
        visit_expr(env, expr, types).1 is Ok ==> all_recorded(
            visit_expr(env, expr, types).0,
            outer_expr_nodes(expr),
        ),
        visit_expr(env, expr, types).1 is Ok ==> all_recorded(
            visit_expr(env, expr, types).0,
            settled_expr_nodes(env, expr, types),
        ),
        never_cancels(env.answers) ==> visit_expr(env, expr, types).1 is Ok,
        never_cancels(env.answers) ==> all_recorded(
            visit_expr(env, expr, types).0,
            expr_nodes(expr),
        ),
    decreases expr, 1nat, 0nat,
{
    infer_parts_covers_their_nodes(env, expr, parts(expr).len(), types);
}

/// The same of the first `n` parts of an expression.
pub proof fn infer_parts_covers_their_nodes(env: Env, expr: Expr, n: nat, types: Types)
    requires
        n <= parts(expr).len(),
    ensures
        recorded_within(types, visit_parts(env, expr, n, types).0, part_nodes(expr, n)),
        visit_parts(env, expr, n, types).1 is Ok ==> all_recorded(
            visit_parts(env, expr, n, types).0,
            outer_part_nodes(expr, n),
        ),
        visit_parts(env, expr, n, types).1 is Ok ==> all_recorded(
            visit_parts(env, expr, n, types).0,
            settled_part_nodes(env, expr, n, types),
        ),
        never_cancels(env.answers) ==> visit_parts(env, expr, n, types).1 is Ok,
        never_cancels(env.answers) ==> all_recorded(
            visit_parts(env, expr, n, types).0,
            part_nodes(expr, n),
        ),
    decreases expr, 0nat, n,
{
    if n > 0 {
        infer_parts_covers_their_nodes(env, expr, (n - 1) as nat, types);
        let seen = visit_parts(env, expr, (n - 1) as nat, types).0;
        lemma_part_smaller(expr, n - 1);
        match parts(expr)[n - 1] {
            Part::Missing => {},
            Part::Expr(e) => {
                infer_expr_covers_its_nodes(env, e, seen);
            },
            Part::Iterable(e) => {
                infer_expr_covers_its_nodes(env, e, seen);
            },
            Part::Block(b) => {
                infer_block_covers_its_nodes(env, b, seen);
            },
        }
    }
}

/// The same of a block.
pub proof fn infer_block_covers_its_nodes(env: Env, block: Block, types: Types)
    ensures
        recorded_within(types, visit_block(env, block, types).0, block_nodes(block)),
        visit_block(env, block, types).1 is Ok ==> all_recorded(
            visit_block(env, block, types).0,
            outer_block_nodes(block),
        ),
        visit_block(env, block, types).1 is Ok ==> all_recorded(
            visit_block(env, block, types).0,
            settled_block_nodes(env, block, types),
        ),
        never_cancels(env.answers) ==> visit_block(env, block, types).1 is Ok,
        never_cancels(env.answers) ==> all_recorded(
            visit_block(env, block, types).0,
            block_nodes(block),
        ),
    decreases block, 1nat, 0nat,
{
    infer_stmts_covers_their_nodes(env, block, block.statements@.len(), types);
    let seen = visit_stmts(env, block, block.statements@.len(), types).0;
    if let Some(e) = block.expr {
        infer_expr_covers_its_nodes(env, *e, seen);
    }
}

/// The same of the first `n` statements of a block.
pub proof fn infer_stmts_covers_their_nodes(env: Env, block: Block, n: nat, types: Types)
    requires
        n <= block.statements@.len(),
    ensures
        recorded_within(types, visit_stmts(env, block, n, types).0, stmts_nodes(block, n)),
        visit_stmts(env, block, n, types).1 is Ok ==> all_recorded(
            visit_stmts(env, block, n, types).0,
            outer_stmts_nodes(block, n),
        ),
        visit_stmts(env, block, n, types).1 is Ok ==> all_recorded(
            visit_stmts(env, block, n, types).0,
            settled_stmts_nodes(env, block, n, types),
        ),
        never_cancels(env.answers) ==> visit_stmts(env, block, n, types).1 is Ok,
        never_cancels(env.answers) ==> all_recorded(
            visit_stmts(env, block, n, types).0,
            stmts_nodes(block, n),
        ),
    decreases block, 0nat, n,
{
    if n > 0 {
        infer_stmts_covers_their_nodes(env, block, (n - 1) as nat, types);
        let seen = visit_stmts(env, block, (n - 1) as nat, types).0;
        assert(decreases_to!(block => block.statements@[n - 1]));
        infer_stmt_covers_its_nodes(env, block.statements@[n - 1], seen);
    }
}

/// The same of a statement.
pub proof fn infer_stmt_covers_its_nodes(env: Env, stmt: Stmt, types: Types)
    ensures
        recorded_within(types, visit_stmt(env, stmt, types).0, stmt_nodes(stmt)),
        visit_stmt(env, stmt, types).1 is Ok ==> all_recorded(
            visit_stmt(env, stmt, types).0,
            outer_stmt_nodes(stmt),
        ),
        visit_stmt(env, stmt, types).1 is Ok ==> all_recorded(
            visit_stmt(env, stmt, types).0,
            settled_stmt_nodes(env, stmt, types),
        ),
        never_cancels(env.answers) ==> visit_stmt(env, stmt, types).1 is Ok,
        never_cancels(env.answers) ==> all_recorded(
            visit_stmt(env, stmt, types).0,
            stmt_nodes(stmt),
        ),
    decreases stmt, 1nat, 0nat,
{
    match stmt {
        Stmt::LetStmt { pat, type_ref, initializer: Some(e) } => {
            infer_expr_covers_its_nodes(env, *e, types);
        },
        Stmt::ExprStmt { expr: Some(e) } => {
            infer_expr_covers_its_nodes(env, *e, types);
        },
        _ => {},
    }
}

/// An expression that is inferred has, from then on, its type recorded for its node.
pub proof fn inferred_expr_is_recorded(env: Env, expr: Expr, types: Types)
    ensures
        visit_expr(env, expr, types).1 matches Ok(ty) ==> {
            let after = visit_expr(env, expr, types).0;
            after.contains_key(ptr_to(expr.syntax)) && after[ptr_to(expr.syntax)] == ty
        },
{
}

/// A block that is inferred has, from then on, its type recorded for its node.
pub proof fn inferred_block_is_recorded(env: Env, block: Block, types: Types)
    ensures
        visit_block(env, block, types).1 matches Ok(ty) ==> {
            let after = visit_block(env, block, types).0;
            after.contains_key(ptr_to(block.syntax)) && after[ptr_to(block.syntax)] == ty
        },
{
}

/// The patterns of the first `n` parameters.
pub open spec fn params_nodes(params: Seq<Param>, n: nat) -> Set<LocalSyntaxPtr>
    decreases n,
{
    if n == 0 || n > params.len() {
        Set::empty()
    } else {
        params_nodes(params, (n - 1) as nat).union(pat_nodes(params[n - 1].pat))
    }
}

/// The nodes of a function for which inference records a type: the patterns of its parameters,
/// and the nodes of its body.
pub open spec fn fn_nodes(answers: Answers, f: Function) -> Set<LocalSyntaxPtr> {
    let params = params_of(answers, f);
    match (answers.fn_syntax)(f).body {
        Some(body) => params_nodes(params, params.len()).union(block_nodes(body)),
        None => params_nodes(params, params.len()),
    }
}

/// The nodes of a function that stand outside the iterables of `for` loops.
pub open spec fn outer_fn_nodes(answers: Answers, f: Function) -> Set<LocalSyntaxPtr> {
    let params = params_of(answers, f);
    match (answers.fn_syntax)(f).body {
        Some(body) => params_nodes(params, params.len()).union(outer_block_nodes(body)),
        None => params_nodes(params, params.len()),
    }
}

/// The nodes of a function, without those inside an iterable whose inference is canceled.
pub open spec fn settled_fn_nodes(answers: Answers, f: Function) -> Set<LocalSyntaxPtr> {
    let params = params_of(answers, f);
    match (answers.fn_syntax)(f).body {
        Some(body) => {
            let module = (answers.fn_module)(f)->Ok_0;
            let env = Env { answers, scopes: (answers.fn_scopes)(f), module };
            let bound = bind_params(answers, module, params, params.len())->Ok_0;
            params_nodes(params, params.len()).union(settled_block_nodes(env, body, bound))
        },
        None => params_nodes(params, params.len()),
    }
}

/// The parameters of a function are recorded for their patterns, and nothing else is; where no
/// question is canceled, none of them is left out.
pub proof fn params_are_recorded(answers: Answers, module: Module, params: Seq<Param>, n: nat)
    requires
        n <= params.len(),
    ensures
        bind_params(answers, module, params, n) matches Ok(types) ==> types.dom() == params_nodes(
            params,
            n,
        ),
        never_cancels(answers) ==> bind_params(answers, module, params, n) is Ok,
    decreases n,
{
    if n > 0 {
        params_are_recorded(answers, module, params, (n - 1) as nat);
        if let Ok(types) = bind_params(answers, module, params, n) {
            assert(types.dom() =~= params_nodes(params, n));
        }
    } else {
        assert(Types::empty().dom() =~= params_nodes(params, n));
    }
}

/// The inference of a function records types only for nodes of that function. When it succeeds,
/// every node of the function has a type, except inside the iterable of a `for` loop whose
/// inference was canceled. Where no question is canceled, it succeeds, and exactly the nodes of
/// the function have a type.
pub proof fn infer_covers_the_function(answers: Answers, f: Function)
    ensures
        fn_types(answers, f) matches Ok(types) ==> {
            &&& types.dom().subset_of(fn_nodes(answers, f))
            &&& all_recorded(types, outer_fn_nodes(answers, f))
            &&& all_recorded(types, settled_fn_nodes(answers, f))
        },
        never_cancels(answers) ==> fn_types(answers, f) is Ok,
        never_cancels(answers) ==> fn_types(answers, f)->Ok_0.dom() == fn_nodes(answers, f),
{
    if let Ok(module) = (answers.fn_module)(f) {
        let params = params_of(answers, f);
        params_are_recorded(answers, module, params, params.len());
        if let Ok(bound) = bind_params(answers, module, params, params.len()) {
            let param_ptrs = params_nodes(params, params.len());
            assert forall|ptr: LocalSyntaxPtr| #[trigger]
                param_ptrs.contains(ptr) implies bound.contains_key(ptr) by {
                assert(bound.dom().contains(ptr));
            }
            if let Some(body) = (answers.fn_syntax)(f).body {
                let env = Env { answers, scopes: (answers.fn_scopes)(f), module };
                infer_block_covers_its_nodes(env, body, bound);
                let after = visit_block(env, body, bound).0;
                assert forall|ptr: LocalSyntaxPtr| after.dom().contains(ptr) implies fn_nodes(
                    answers,
                    f,
                ).contains(ptr) by {
                    assert(after.contains_key(ptr));
                    assert(bound.contains_key(ptr) == bound.dom().contains(ptr));
                }
                if never_cancels(answers) {
                    assert(after.dom() =~= fn_nodes(answers, f));
                }
            }
        }
    }
}

/// A parameter whose pattern is not recorded again, by a later parameter or by the body, keeps
/// its written type to the end.
pub proof fn param_keeps_its_type(answers: Answers, f: Function, i: int)
    requires
        0 <= i < params_of(answers, f).len(),
        params_of(answers, f)[i].pat is Some,
        forall|j: int|
            i < j < params_of(answers, f).len() ==> !pat_nodes(
                (#[trigger] params_of(answers, f)[j]).pat,
            ).contains(ptr_to(params_of(answers, f)[i].pat->0.syntax)),
        (answers.fn_syntax)(f).body matches Some(body) ==> !block_nodes(body).contains(
            ptr_to(params_of(answers, f)[i].pat->0.syntax),
        ),
        fn_types(answers, f) is Ok,
    ensures
        ({
            let param = params_of(answers, f)[i];
            let ptr = ptr_to(param.pat->0.syntax);
            &&& fn_types(answers, f)->Ok_0.contains_key(ptr)
            &&& Ok::<_, Canceled>(fn_types(answers, f)->Ok_0[ptr]) == written_type_opt(
                answers,
                (answers.fn_module)(f)->Ok_0,
                param.type_ref,
            )
        }),
{
    let module = (answers.fn_module)(f)->Ok_0;
    let params = params_of(answers, f);
    lemma_bound_param_stays(answers, module, params, i, params.len());
    let bound = bind_params(answers, module, params, params.len())->Ok_0;
    if let Some(body) = (answers.fn_syntax)(f).body {
        let env = Env { answers, scopes: (answers.fn_scopes)(f), module };
        infer_block_covers_its_nodes(env, body, bound);
    }
}

/// A parameter keeps its written type while those behind it are bound.
proof fn lemma_bound_param_stays(
    answers: Answers,
    module: Module,
    params: Seq<Param>,
    i: int,
    n: nat,
)
    requires
        0 <= i < n <= params.len(),
        params[i].pat is Some,
        forall|j: int|
            i < j < params.len() ==> !pat_nodes((#[trigger] params[j]).pat).contains(
                ptr_to(params[i].pat->0.syntax),
            ),
        bind_params(answers, module, params, n) is Ok,
    ensures
        bind_params(answers, module, params, n)->Ok_0.contains_key(
            ptr_to(params[i].pat->0.syntax),
        ),
        Ok::<_, Canceled>(
            bind_params(answers, module, params, n)->Ok_0[ptr_to(params[i].pat->0.syntax)],
        ) == written_type_opt(answers, module, params[i].type_ref),
    decreases n,
{
    if i < n - 1 {
        assert(!pat_nodes(params[n - 1].pat).contains(ptr_to(params[i].pat->0.syntax)));
        lemma_bound_param_stays(answers, module, params, i, (n - 1) as nat);
        if let Some(p) = params[n - 1].pat {
            assert(pat_nodes(params[n - 1].pat).contains(ptr_to(p.syntax)));
        }
    }
}

/// A number type is displayed by the name that denotes it, and by no other.
pub proof fn number_types_are_displayed_by_name(name: Seq<char>, ty: TyModel)
    ensures
        number_type(name) == Some(ty) ==> ty_text(ty) == name,
        (ty is Int || ty is Uint || ty is Float) ==> number_type(ty_text(ty)) == Some(ty),
{
    named_type_has_that_name(name);
    number_names_are_disjoint(ty_text(ty));
    match ty {
        TyModel::Int(t) => {
            int_name_round_trip(t);
        },
        TyModel::Uint(t) => {
            uint_name_round_trip(t);
        },
        TyModel::Float(t) => {
            float_name_round_trip(t);
        },
        _ => {},
    }
}

/// The name of a number type denotes that type everywhere, whatever the database knows.
pub proof fn number_names_denote_numbers(answers: Answers, module: Module, path: AstPath)
    requires
        lowered_path(path) is Some,
        lowered_path(path)->0.is_ident(),
        number_type(lowered_path(path)->0.segments[0]) is Some,
    ensures
        path_type(answers, module, path) == Ok::<_, Canceled>(
            number_type(lowered_path(path)->0.segments[0])->0,
        ),
{
}

/// A name that denotes a local binding has the type recorded for that binding, whatever items
/// of that name there are; it is unknown where none is recorded, and never canceled.
pub proof fn local_bindings_hide_items(env: Env, types: Types, expr: Expr, path: AstPath)
    requires
        expr.kind == (ExprKind::PathExpr { path: Some(path) }),
        lowered_path(path) is Some,
        lowered_path(path)->0.is_ident(),
        path_name(path) is Some,
        local_entry(env.scopes, ptr_to(path_name(path)->0.syntax)) is Some,
    ensures
        visit_expr(env, expr, types).1 == Ok::<_, Canceled>(
            {
                let binding = local_entry(env.scopes, ptr_to(path_name(path)->0.syntax))->0;
                if types.contains_key(binding.ptr) {
                    types[binding.ptr]
                } else {
                    TyModel::Unknown
                }
            },
        ),
{
    assert(visit_parts(env, expr, 0, types) == (types, Ok::<_, Canceled>(Seq::<TyModel>::empty())));
}

/// The type that a `let` records for its pattern.
pub open spec fn let_stmt_type(env: Env, stmt: Stmt, types: Types) -> TyModel
    recommends
        stmt is LetStmt,
        visit_stmt(env, stmt, types).1 is Ok,
{
    let decl_ty = written_type_opt(env.answers, env.module, stmt->type_ref)->Ok_0;
    match stmt->initializer {
        Some(init) => let_type(visit_expr(env, *init, types).1->Ok_0, decl_ty),
        None => decl_ty,
    }
}

/// A `let` pattern keeps its type while the statements behind it are inferred, as long as none
/// of them records a type for the same node. It keeps it when one of them is canceled, too.
pub proof fn let_keeps_its_type_over_statements(
    env: Env,
    block: Block,
    k: int,
    pat: Pat,
    n: nat,
    types: Types,
)
    requires
        0 <= k < n <= block.statements@.len(),
        block.statements@[k] matches Stmt::LetStmt { pat: Some(p), type_ref: _, initializer: _ }
            && p == pat,
        visit_stmts(env, block, (k + 1) as nat, types).1 is Ok,
        forall|j: int|
            k < j < n ==> !stmt_nodes(#[trigger] block.statements@[j]).contains(
                ptr_to(pat.syntax),
            ),
    ensures
        ({
            let before = visit_stmts(env, block, k as nat, types).0;
            let after = visit_stmts(env, block, n, types).0;
            &&& after.contains_key(ptr_to(pat.syntax))
            &&& after[ptr_to(pat.syntax)] == let_stmt_type(env, block.statements@[k], before)
        }),
    decreases n,
{
    let before = visit_stmts(env, block, k as nat, types).0;
    if n == k + 1 {
        let step = visit_stmt(env, block.statements@[k], before);
    } else {
        let_keeps_its_type_over_statements(env, block, k, pat, (n - 1) as nat, types);
        let seen = visit_stmts(env, block, (n - 1) as nat, types).0;
        assert(!stmt_nodes(block.statements@[n - 1]).contains(ptr_to(pat.syntax)));
        infer_stmt_covers_its_nodes(env, block.statements@[n - 1], seen);
    }
}

/// A `let` pattern keeps its type to the end of the block, as long as neither a later statement
/// nor the expression at the end of the block nor the block itself is recorded for the same
/// node. It keeps it when the block is canceled behind the `let`, too.
pub proof fn let_keeps_its_type(env: Env, block: Block, k: int, pat: Pat, types: Types)
    requires
        0 <= k < block.statements@.len(),
        block.statements@[k] matches Stmt::LetStmt { pat: Some(p), type_ref: _, initializer: _ }
            && p == pat,
        visit_stmts(env, block, (k + 1) as nat, types).1 is Ok,
        forall|j: int|
            k < j < block.statements@.len() ==> !stmt_nodes(
                #[trigger] block.statements@[j],
            ).contains(ptr_to(pat.syntax)),
        block.expr matches Some(e) ==> !expr_nodes(*e).contains(ptr_to(pat.syntax)),
        ptr_to(block.syntax) != ptr_to(pat.syntax),
    ensures
        ({
            let before = visit_stmts(env, block, k as nat, types).0;
            let after = visit_block(env, block, types).0;
            &&& after.contains_key(ptr_to(pat.syntax))
            &&& after[ptr_to(pat.syntax)] == let_stmt_type(env, block.statements@[k], before)
        }),
{
    let n = block.statements@.len();
    let_keeps_its_type_over_statements(env, block, k, pat, n, types);
    let seen = visit_stmts(env, block, n, types).0;
    if let Some(e) = block.expr {
        infer_expr_covers_its_nodes(env, *e, seen);
    }
}

/// A use of a variable, behind any number of statements after the `let` that binds it, has the
/// type of that `let`: the declared type, where that is known, and else that of the initializer.
pub proof fn use_of_a_let_has_its_type(
    env: Env,
    block: Block,
    k: int,
    pat: Pat,
    n: nat,
    types: Types,
    expr: Expr,
    path: AstPath,
)
    requires
        0 <= k < n <= block.statements@.len(),
        block.statements@[k] matches Stmt::LetStmt { pat: Some(p), type_ref: _, initializer: _ }
            && p == pat,
        visit_stmts(env, block, (k + 1) as nat, types).1 is Ok,
        forall|j: int|
            k < j < n ==> !stmt_nodes(#[trigger] block.statements@[j]).contains(
                ptr_to(pat.syntax),
            ),
        expr.kind == (ExprKind::PathExpr { path: Some(path) }),
        lowered_path(path) is Some,
        lowered_path(path)->0.is_ident(),
        path_name(path) is Some,
        local_entry(env.scopes, ptr_to(path_name(path)->0.syntax)) matches Some(entry) && entry.ptr
            == ptr_to(pat.syntax),
    ensures
        ({
            let stmt = block.statements@[k];
            let before = visit_stmts(env, block, k as nat, types).0;
            let decl_ty = written_type_opt(env.answers, env.module, stmt->type_ref);
            let used = visit_expr(env, expr, visit_stmts(env, block, n, types).0).1;
            &&& decl_ty is Ok
            &&& used == Ok::<_, Canceled>(let_stmt_type(env, stmt, before))
            &&& decl_ty->Ok_0 != TyModel::Unknown ==> used == decl_ty
            &&& decl_ty->Ok_0 == TyModel::Unknown ==> match stmt->initializer {
                Some(init) => used == visit_expr(env, *init, before).1,
                None => used == decl_ty,
            }
        }),
{
    let_keeps_its_type_over_statements(env, block, k, pat, n, types);
    let step = visit_stmt(
        env,
        block.statements@[k],
        visit_stmts(env, block, k as nat, types).0,
    );
    local_bindings_hide_items(env, visit_stmts(env, block, n, types).0, expr, path);
}

/// A block that is inferred has inferred each of its statements.
pub proof fn inferred_block_has_inferred_its_statements(
    env: Env,
    block: Block,
    n: nat,
    types: Types,
)
    requires
        n <= block.statements@.len(),
        visit_block(env, block, types).1 is Ok,
    ensures
        visit_stmts(env, block, n, types).1 is Ok,
    decreases block.statements@.len() - n,
{
    if n < block.statements@.len() {
        inferred_block_has_inferred_its_statements(env, block, n + 1, types);
    }
}

/// Whether a database answers with the types that definitions have.
pub open spec fn knows_types(answers: Answers) -> bool {
    forall|def_id: DefId| #[trigger]
        (answers.type_for_def)(def_id) == def_type(answers, def_id)
}

/// A function has a type with one entry for each of its parameters.
pub proof fn fn_type_has_all_params(answers: Answers, f: Function)
    ensures
        fn_type(answers, f) matches Ok(ty) ==> {
            &&& ty is FnPtr
            &&& ty->input.len() == params_of(answers, f).len()
        },
{
}

/// Where no question is canceled, every definition has a type, be it the unknown one.
pub proof fn every_definition_has_a_type(answers: Answers, def_id: DefId)
    requires
        never_cancels(answers),
    ensures
        def_type(answers, def_id) is Ok,
{
    if let Ok(Def::Function(f)) = (answers.resolve_def)(def_id) {
        let module = (answers.fn_module)(f)->Ok_0;
        let tys = params_of(answers, f).map_values(
            |param: Param| written_type_opt(answers, module, param.type_ref),
        );
        assert forall|i: int| 0 <= i < tys.len() implies (#[trigger] tys[i]) is Ok by {
            assert(tys[i] == written_type_opt(answers, module, params_of(answers, f)[i].type_ref));
        }
    }
}

/// What is inferred for the first part of an expression is not changed by the parts behind it.
proof fn lemma_first_part_stays(env: Env, expr: Expr, n: nat, types: Types)
    requires
        1 <= n <= parts(expr).len(),
        visit_parts(env, expr, n, types).1 is Ok,
    ensures
        visit_parts(env, expr, 1, types).1 is Ok,
        visit_parts(env, expr, n, types).1->Ok_0.len() == n,
        visit_parts(env, expr, n, types).1->Ok_0[0] == visit_parts(env, expr, 1, types).1->Ok_0[0],
    decreases n,
{
    if n > 1 {
        lemma_first_part_stays(env, expr, (n - 1) as nat, types);
    } else {
        assert(visit_parts(env, expr, 0, types).1 == Ok::<_, Canceled>(Seq::<TyModel>::empty()));
    }
}

/// A call of a function that is named by a path, and not hidden by a local binding, has the
/// result type that is written at the function, as seen from the function's own module. The
/// arguments do not matter.
pub proof fn call_has_the_written_result_type(
    env: Env,
    types: Types,
    expr: Expr,
    callee: Expr,
    path: AstPath,
    f: Function,
    def_id: DefId,
)
    requires
        knows_types(env.answers),
        expr.kind matches ExprKind::CallExpr { expr: Some(c), arg_list: _ } && *c == callee,
        callee.kind == (ExprKind::PathExpr { path: Some(path) }),
        lowered_path(path) is Some,
        lowered_path(path)->0.is_ident() ==> path_name(path) is Some && local_entry(
            env.scopes,
            ptr_to(path_name(path)->0.syntax),
        ) is None,
        (env.answers.resolve_path)(env.module, lowered_path(path)->0) matches Ok(found)
            && found.values == Some(def_id),
        (env.answers.resolve_def)(def_id) == Ok::<_, Canceled>(Def::Function(f)),
        visit_expr(env, expr, types).1 is Ok,
    ensures
        visit_expr(env, expr, types).1 == written_type_opt(
            env.answers,
            (env.answers.fn_module)(f)->Ok_0,
            ret_type_of(env.answers, f),
        ),
{
    lemma_first_part_stays(env, expr, parts(expr).len(), types);
    assert(visit_parts(env, expr, 0, types) == (types, Ok::<_, Canceled>(Seq::<TyModel>::empty())));
    assert(visit_parts(env, callee, 0, types) == (
        types,
        Ok::<_, Canceled>(Seq::<TyModel>::empty()),
    ));
    assert((env.answers.type_for_def)(def_id) == def_type(env.answers, def_id));
    assert(visit_parts(env, expr, 1, types).1->Ok_0[0] == visit_expr(env, callee, types).1->Ok_0);
}

/// A struct literal has the type of the struct that its path denotes, whatever its fields are.
pub proof fn literal_has_the_type_of_its_struct(
    env: Env,
    types: Types,
    expr: Expr,
    path: AstPath,
    s: Struct,
    def_id: DefId,
)
    requires
        expr.kind matches ExprKind::StructLit { path: Some(p), named_field_list: _ } && p == path,
        lowered_path(path) is Some,
        (env.answers.resolve_path)(env.module, lowered_path(path)->0) matches Ok(found)
            && found.types == Some(def_id),
        (env.answers.resolve_def)(def_id) == Ok::<_, Canceled>(Def::Struct(s)),
        visit_expr(env, expr, types).1 is Ok,
    ensures
        visit_expr(env, expr, types).1 == struct_type(env.answers, s),
{
}

/// A `for` loop outlives the cancellation of its iterable: it is canceled only where its body is.
pub proof fn for_loop_outlives_its_iterable(
    env: Env,
    types: Types,
    expr: Expr,
    iterable: Expr,
    body: Block,
)
    requires
        expr.kind matches ExprKind::ForExpr { pat: _, iterable: Some(i), loop_body: Some(b) } && *i
            == iterable && b == body,
    ensures
        visit_expr(env, expr, types).1 is Err <==> visit_block(
            env,
            body,
            visit_expr(env, iterable, types).0,
        ).1 is Err,
{
    assert(visit_parts(env, expr, 0, types) == (types, Ok::<_, Canceled>(Seq::<TyModel>::empty())));
    let one = visit_parts(env, expr, 1, types);
    assert(one.0 == visit_expr(env, iterable, types).0);
    let two = visit_parts(env, expr, 2, types);
}

} // verus!
