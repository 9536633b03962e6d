//! What holds of the inference of statements, of blocks and of whole functions.

use crate::ast::Block;
use crate::ast::Expr;
use crate::ast::LocalSyntaxPtr;
use crate::ast::Param;
use crate::ast::Pat;
use crate::ast::Stmt;
use crate::ast::TypeRef;
use crate::ast::ptr_to;
use crate::db::Answers;
use crate::db::Canceled;
use crate::hir::Function;
use crate::hir::Module;
use crate::lower::params_of;
use crate::lower::written_type_opt;
use crate::rules::Env;
use crate::rules::bind_params;
use crate::rules::fn_types;
use crate::rules::visit_block;
use crate::rules::visit_expr;
use crate::rules::visit_expr_opt;
use crate::rules::visit_stmt;
use crate::rules::visit_stmts;
use crate::table::Types;
use crate::ty::TyModel;
use crate::ty::unit_model;
use vstd::prelude::*;

verus! {

/// The unit type is the tuple of no types.
pub proof fn unit_is_the_empty_tuple()
    ensures
        unit_model() == TyModel::Tuple(Seq::empty()),
{
}

/// A `let` records for its pattern the declared type where that is known, whatever type it is,
/// and else the type of the initializer, whatever type that is. The declared type is asked for
/// first; where that or the initializer is canceled, nothing is recorded for the pattern.
pub proof fn let_records_its_type(
    env: Env,
    stmt: Stmt,
    pat: Option<Pat>,
    type_ref: Option<TypeRef>,
    initializer: Option<Box<Expr>>,
    types: Types,
)
    requires
        stmt == (Stmt::LetStmt { pat, type_ref, initializer }),
    ensures
        ({
            let declared = written_type_opt(env.answers, env.module, type_ref);
            let (seen, init) = visit_expr_opt(env, initializer, types);
            let (after, done) = visit_stmt(env, stmt, types);
            &&& declared is Err ==> done is Err && after == types
            &&& declared is Ok && init is Err ==> done is Err && after == seen
            &&& declared is Ok && init is Ok ==> {
                let ty = if declared->Ok_0 != TyModel::Unknown {
                    declared->Ok_0
                } else {
                    init->Ok_0
                };
                &&& done is Ok
                &&& after == match pat {
                    Some(pat) => seen.insert(ptr_to(pat.syntax), ty),
                    None => seen,
                }
            }
        }),
{
}

/// An expression as a statement is inferred, and records nothing more.
pub proof fn expr_stmt_infers_its_expression(
    env: Env,
    stmt: Stmt,
    expr: Option<Box<Expr>>,
    types: Types,
)
    requires
        stmt == (Stmt::ExprStmt { expr }),
    ensures
        ({
            let (seen, ty) = visit_expr_opt(env, expr, types);
            let (after, done) = visit_stmt(env, stmt, types);
            &&& after == seen
            &&& done is Ok <==> ty is Ok
        }),
{
}

/// A block infers its statements in order, each on what was recorded before it; the first of them
/// that is canceled ends it. It then infers the expression at its end, on what was recorded
/// behind the last statement, and has the type of that expression, whatever type that is. A block
/// without such an expression is of the unit type. Its type is recorded for its node.
pub proof fn block_has_the_type_of_its_tail(env: Env, block: Block, types: Types) -> (states: Seq<
    Types,
>)
    ensures
        ({
            let stmts = block.statements@;
            let last: int = stmts.len() as int;
            let (after, ty) = visit_block(env, block, types);
            &&& states.len() == stmts.len() + 1
            &&& states[0] == types
            &&& forall|i: int|
                0 <= i < stmts.len() ==> states[i + 1] == (#[trigger] visit_stmt(
                    env,
                    stmts[i],
                    states[i],
                )).0
            &&& (forall|i: int|
                0 <= i < stmts.len() ==> (#[trigger] visit_stmt(env, stmts[i], states[i])).1 is Ok)
                ==> match block.expr {
                Some(tail) => {
                    let (seen, tail_ty) = visit_expr(env, *tail, states[last]);
                    &&& ty == tail_ty
                    &&& after == match tail_ty {
                        Ok(tail_ty) => seen.insert(ptr_to(block.syntax), tail_ty),
                        Err(_) => seen,
                    }
                },
                None => {
                    &&& ty == Ok::<_, Canceled>(TyModel::Tuple(Seq::empty()))
                    &&& after == states[last].insert(
                        ptr_to(block.syntax),
                        TyModel::Tuple(Seq::empty()),
                    )
                },
            }
            &&& forall|k: int|
                0 <= k < stmts.len() && (#[trigger] visit_stmt(env, stmts[k], states[k])).1 is Err
                    && (forall|i: int|
                    0 <= i < k ==> (#[trigger] visit_stmt(env, stmts[i], states[i])).1 is Ok) ==> {
                    &&& ty is Err
                    &&& after == states[k + 1]
                }
        }),
{
    let stmts = block.statements@;
    let states = Seq::new(stmts.len() + 1, |k: int| state_after(env, stmts, types, k as nat));
    assert forall|i: int| 0 <= i < stmts.len() implies states[i + 1] == (#[trigger] visit_stmt(
        env,
        stmts[i],
        states[i],
    )).0 by {
        assert(states[i + 1] == state_after(env, stmts, types, (i + 1) as nat));
        assert(states[i] == state_after(env, stmts, types, i as nat));
    }
    lemma_stmts_in_order(env, block, states, stmts.len());
    states
}

/// What is recorded behind the first `k` statements.
spec fn state_after(env: Env, stmts: Seq<Stmt>, types: Types, k: nat) -> Types
    decreases k,
{
    if k == 0 {
        types
    } else {
        visit_stmt(env, stmts[k - 1], state_after(env, stmts, types, (k - 1) as nat)).0
    }
}

/// The statements of a block are inferred in order, up to the first of them that is canceled.
proof fn lemma_stmts_in_order(env: Env, block: Block, states: Seq<Types>, n: nat)
    requires
        n <= block.statements@.len(),
        states.len() == block.statements@.len() + 1,
        forall|i: int|
            0 <= i < block.statements@.len() ==> states[i + 1] == (#[trigger] visit_stmt(
                env,
                block.statements@[i],
                states[i],
            )).0,
    ensures
        ({
            let stmts = block.statements@;
            let (seen, done) = visit_stmts(env, block, n, states[0]);
            &&& done is Ok <==> forall|i: int|
                0 <= i < n ==> (#[trigger] visit_stmt(env, stmts[i], states[i])).1 is Ok
            &&& done is Ok ==> seen == states[n as int]
            &&& forall|k: int|
                0 <= k < n && (#[trigger] visit_stmt(env, stmts[k], states[k])).1 is Err && (forall|
                    i: int,
                |
                    0 <= i < k ==> (#[trigger] visit_stmt(env, stmts[i], states[i])).1 is Ok)
                    ==> seen == states[k + 1]
        }),
    decreases n,
{
    if n > 0 {
        let m = (n - 1) as nat;
        lemma_stmts_in_order(env, block, states, m);
        let step = visit_stmt(env, block.statements@[m as int], states[m as int]);
        assert(states[m as int + 1] == step.0);
    }
}

/// Whether a parameter is bound to that node.
pub open spec fn bound_to(param: Param, ptr: LocalSyntaxPtr) -> bool {
    param.pat matches Some(pat) && ptr_to(pat.syntax) == ptr
}

/// A function is inferred on the types of its parameters: each parameter with a pattern is bound
/// to the type that is written at it, whatever type that is, seen from the function's module, and
/// no other node is bound. Where two are bound to one node, the later counts. The types of the
/// function are those recorded by its body, on top of these and among the uses of local bindings
/// inside the function; without a body they are just these. The inference is canceled where the
/// module is not told, or one of those written types or the body is canceled.
pub proof fn function_is_inferred_on_its_parameters(
    answers: Answers,
    f: Function,
    params: Seq<Param>,
) -> (bound: Types)
    requires
        match (answers.fn_syntax)(f).param_list {
            Some(list) => params == list.params@,
            None => params.len() == 0,
        },
    ensures
        (answers.fn_module)(f) is Err ==> fn_types(answers, f) is Err,
        (answers.fn_module)(f) matches Ok(module) ==> {
            &&& (exists|i: int|
                0 <= i < params.len() && (#[trigger] params[i]).pat is Some && written_type_opt(
                    answers,
                    module,
                    params[i].type_ref,
                ) is Err) ==> fn_types(answers, f) is Err
            &&& (forall|i: int|
                0 <= i < params.len() && (#[trigger] params[i]).pat is Some ==> written_type_opt(
                    answers,
                    module,
                    params[i].type_ref,
                ) is Ok) ==> {
                &&& forall|ptr: LocalSyntaxPtr| #[trigger]
                    bound.contains_key(ptr) <==> exists|i: int|
                        0 <= i < params.len() && bound_to(#[trigger] params[i], ptr)
                &&& forall|i: int, ptr: LocalSyntaxPtr|
                    0 <= i < params.len() && #[trigger] bound_to(params[i], ptr) && (forall|j: int|
                        i < j < params.len() ==> !bound_to(#[trigger] params[j], ptr)) ==> Ok::<
                        _,
                        Canceled,
                    >(bound[ptr]) == written_type_opt(answers, module, params[i].type_ref)
                &&& match (answers.fn_syntax)(f).body {
                    None => fn_types(answers, f) == Ok::<_, Canceled>(bound),
                    Some(body) => {
                        let scopes = (answers.fn_scopes)(f);
                        let (after, ty) = visit_block(Env { answers, scopes, module }, body, bound);
                        match ty {
                            Ok(_) => fn_types(answers, f) == Ok::<_, Canceled>(after),
                            Err(_) => fn_types(answers, f) is Err,
                        }
                    },
                }
            }
        },
{
    assert(params_of(answers, f) =~= params);
    if let Ok(module) = (answers.fn_module)(f) {
        lemma_bound_params(answers, module, params, params.len());
        bind_params(answers, module, params, params.len())->Ok_0
    } else {
        Types::empty()
    }
}

/// What the first `n` parameters are bound to.
proof fn lemma_bound_params(answers: Answers, module: Module, params: Seq<Param>, n: nat)
    requires
        n <= params.len(),
    ensures
        bind_params(answers, module, params, n) is Ok <==> forall|i: int|
            0 <= i < n && (#[trigger] params[i]).pat is Some ==> written_type_opt(
                answers,
                module,
                params[i].type_ref,
            ) is Ok,
        bind_params(answers, module, params, n) matches Ok(bound) ==> {
            &&& forall|ptr: LocalSyntaxPtr| #[trigger]
                bound.contains_key(ptr) <==> exists|i: int|
                    0 <= i < n && bound_to(#[trigger] params[i], ptr)
            &&& forall|i: int, ptr: LocalSyntaxPtr|
                0 <= i < n && #[trigger] bound_to(params[i], ptr) && (forall|j: int|
                    i < j < n ==> !bound_to(#[trigger] params[j], ptr)) ==> Ok::<_, Canceled>(
                    bound[ptr],
                ) == written_type_opt(answers, module, params[i].type_ref)
        },
    decreases n,
{
    if n > 0 {
        let m = (n - 1) as nat;
        lemma_bound_params(answers, module, params, m);
        let last = params[m as int];
        if let Ok(bound) = bind_params(answers, module, params, n) {
            let before = bind_params(answers, module, params, m)->Ok_0;
            assert forall|ptr: LocalSyntaxPtr| #[trigger] bound.contains_key(ptr) <==> exists|i: int|
                0 <= i < n && bound_to(#[trigger] params[i], ptr) by {
                assert(bound_to(last, ptr) || bound.contains_key(ptr) == before.contains_key(ptr));
                if bound_to(last, ptr) {
                    assert(bound_to(params[m as int], ptr));
                }
            }
            assert forall|i: int, ptr: LocalSyntaxPtr|
                0 <= i < n && #[trigger] bound_to(params[i], ptr) && (forall|j: int|
                    i < j < n ==> !bound_to(#[trigger] params[j], ptr)) implies Ok::<_, Canceled>(
                bound[ptr],
            ) == written_type_opt(answers, module, params[i].type_ref) by {
                if i < m {
                    assert(!bound_to(params[m as int], ptr));
                    assert(before.contains_key(ptr));
                    assert(bound[ptr] == before[ptr]);
                }
            }
        }
    }
}

} // verus!
