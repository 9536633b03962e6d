//! What holds of the inference of each kind of expression.

use crate::ast::ArgList;
use crate::ast::Block;
use crate::ast::Condition;
use crate::ast::Expr;
use crate::ast::ExprKind;
use crate::ast::MatchArm;
use crate::ast::MatchArmList;
use crate::ast::NameRef;
use crate::ast::NamedField;
use crate::ast::NamedFieldList;
use crate::ast::Pat;
use crate::ast::Path as AstPath;
use crate::ast::TypeRef;
use crate::ast::ptr_to;
use crate::db::Cancelable;
use crate::db::Canceled;
use crate::lower::written_type_opt;
use crate::rules::Env;
use crate::rules::Part;
use crate::rules::branch_type;
use crate::rules::expr_part;
use crate::rules::field_type;
use crate::rules::parts;
use crate::rules::path_expr_type;
use crate::rules::variant;
use crate::rules::visit_block;
use crate::rules::visit_block_opt;
use crate::rules::visit_expr;
use crate::rules::visit_expr_opt;
use crate::rules::visit_parts;
use crate::table::Types;
use crate::ty::TyModel;
use vstd::prelude::*;

verus! {

/// What inferring a part of an expression records, and the type that the part counts with.
spec fn part_outcome(env: Env, part: Part, seen: Types) -> (Types, Cancelable<TyModel>) {
    match part {
        Part::Missing => (seen, Ok(TyModel::Unknown)),
        Part::Expr(e) => visit_expr(env, e, seen),
        Part::Iterable(e) => (visit_expr(env, e, seen).0, Ok(TyModel::Unknown)),
        Part::Block(b) => visit_block(env, b, seen),
    }
}

/// Before any part is inferred, nothing has changed.
proof fn lemma_no_part(env: Env, expr: Expr, types: Types)
    ensures
        visit_parts(env, expr, 0, types) == (types, Ok::<_, Canceled>(Seq::<TyModel>::empty())),
{
}

/// A further part is inferred on what those before it recorded, unless one of them is canceled.
proof fn lemma_next_part(env: Env, expr: Expr, n: nat, types: Types)
    requires
        n < parts(expr).len(),
    ensures
        ({
            let (seen, tys) = visit_parts(env, expr, n, types);
            let (after, ty) = part_outcome(env, parts(expr)[n as int], seen);
            let next = visit_parts(env, expr, n + 1, types);
            &&& tys is Err ==> next == (seen, Err::<Seq<TyModel>, _>(Canceled))
            &&& tys is Ok && ty is Err ==> next == (after, Err::<Seq<TyModel>, _>(Canceled))
            &&& tys is Ok && ty is Ok ==> next == (
                after,
                Ok::<_, Canceled>(tys->Ok_0.push(ty->Ok_0)),
            )
        }),
{
}

/// A part that is not written is of an unknown type, and records nothing; one that is written is
/// inferred.
pub proof fn missing_parts_are_unknown(env: Env, expr: Expr, block: Block, types: Types)
    ensures
        visit_expr_opt(env, None, types) == (types, Ok::<_, Canceled>(TyModel::Unknown)),
        visit_expr_opt(env, Some(Box::new(expr)), types) == visit_expr(env, expr, types),
        visit_block_opt(env, None, types) == (types, Ok::<_, Canceled>(TyModel::Unknown)),
        visit_block_opt(env, Some(block), types) == visit_block(env, block, types),
{
}

/// The branches of an `if` that have the same type give it that type, whatever type it is. A
/// branch of an unknown type leaves the choice to the other; branches of two known types that
/// differ leave the type unknown.
pub proof fn branches_of_one_type_give_that_type(a: TyModel, b: TyModel)
    ensures
        branch_type(a, a) == a,
        branch_type(a, TyModel::Unknown) == a,
        branch_type(TyModel::Unknown, b) == b,
        a != TyModel::Unknown && b != TyModel::Unknown && a != b ==> branch_type(a, b)
            == TyModel::Unknown,
{
}

/// An `if` infers its condition, then the one branch, then the other, each on what was recorded
/// before it; the first of them that is canceled ends it. Where its branches have the same type,
/// whatever type that is, it has that type too. Where one of them is unknown, it has the type of
/// the other. Where both are known and differ, its type is unknown.
pub proof fn if_has_the_type_of_its_branches(
    env: Env,
    expr: Expr,
    condition: Option<Condition>,
    then_branch: Option<Block>,
    else_branch: Option<Block>,
    types: Types,
)
    requires
        expr.kind == (ExprKind::IfExpr { condition, then_branch, else_branch }),
    ensures
        ({
            let tested: Option<Box<Expr>> = match condition {
                Some(condition) => condition.expr,
                None => None,
            };
            let (seen, test) = visit_expr_opt(env, tested, types);
            let (then_seen, then_ty) = visit_block_opt(env, then_branch, seen);
            let (else_seen, else_ty) = visit_block_opt(env, else_branch, then_seen);
            let (after, ty) = visit_expr(env, expr, types);
            &&& ty is Ok <==> test is Ok && then_ty is Ok && else_ty is Ok
            &&& test is Err ==> after == seen
            &&& test is Ok && then_ty is Err ==> after == then_seen
            &&& test is Ok && then_ty is Ok && else_ty is Err ==> after == else_seen
            &&& ty is Ok ==> {
                &&& after == else_seen.insert(ptr_to(expr.syntax), ty->Ok_0)
                &&& then_ty == else_ty ==> ty == then_ty
                &&& then_ty->Ok_0 == TyModel::Unknown ==> ty == else_ty
                &&& else_ty->Ok_0 == TyModel::Unknown ==> ty == then_ty
                &&& {
                    &&& then_ty->Ok_0 != TyModel::Unknown
                    &&& else_ty->Ok_0 != TyModel::Unknown
                    &&& then_ty != else_ty
                } ==> ty == Ok::<_, Canceled>(TyModel::Unknown)
            }
        }),
{
    lemma_no_part(env, expr, types);
    lemma_next_part(env, expr, 0, types);
    lemma_next_part(env, expr, 1, types);
    lemma_next_part(env, expr, 2, types);
}

/// A block in the place of an expression has the type of the block, whatever type that is.
pub proof fn block_expr_has_the_type_of_its_block(
    env: Env,
    expr: Expr,
    block: Option<Block>,
    types: Types,
)
    requires
        expr.kind == (ExprKind::BlockExpr { block }),
    ensures
        ({
            let (seen, block_ty) = visit_block_opt(env, block, types);
            let (after, ty) = visit_expr(env, expr, types);
            &&& ty == block_ty
            &&& after == match ty {
                Ok(ty) => seen.insert(ptr_to(expr.syntax), ty),
                Err(_) => seen,
            }
        }),
{
    lemma_no_part(env, expr, types);
    lemma_next_part(env, expr, 0, types);
}

/// A `loop` infers its body; nothing is known of its own type.
pub proof fn loop_infers_its_body(env: Env, expr: Expr, loop_body: Option<Block>, types: Types)
    requires
        expr.kind == (ExprKind::LoopExpr { loop_body }),
    ensures
        ({
            let (seen, body_ty) = visit_block_opt(env, loop_body, types);
            let (after, ty) = visit_expr(env, expr, types);
            &&& body_ty is Err ==> ty is Err && after == seen
            &&& body_ty is Ok ==> {
                &&& ty == Ok::<_, Canceled>(TyModel::Unknown)
                &&& after == seen.insert(ptr_to(expr.syntax), TyModel::Unknown)
            }
        }),
{
    lemma_no_part(env, expr, types);
    lemma_next_part(env, expr, 0, types);
}

/// A `while` infers its condition, then its body; nothing is known of its own type.
pub proof fn while_infers_its_condition_and_body(
    env: Env,
    expr: Expr,
    condition: Option<Condition>,
    loop_body: Option<Block>,
    types: Types,
)
    requires
        expr.kind == (ExprKind::WhileExpr { condition, loop_body }),
    ensures
        ({
            let tested: Option<Box<Expr>> = match condition {
                Some(condition) => condition.expr,
                None => None,
            };
            let (seen, test) = visit_expr_opt(env, tested, types);
            let (body_seen, body_ty) = visit_block_opt(env, loop_body, seen);
            let (after, ty) = visit_expr(env, expr, types);
            &&& test is Err ==> ty is Err && after == seen
            &&& test is Ok && body_ty is Err ==> ty is Err && after == body_seen
            &&& test is Ok && body_ty is Ok ==> {
                &&& ty == Ok::<_, Canceled>(TyModel::Unknown)
                &&& after == body_seen.insert(ptr_to(expr.syntax), TyModel::Unknown)
            }
        }),
{
    lemma_no_part(env, expr, types);
    lemma_next_part(env, expr, 0, types);
    lemma_next_part(env, expr, 1, types);
}

/// A `for` infers its iterable, then its body, on whatever the iterable recorded, be that
/// canceled or not; nothing is known of its own type, nor of that of its pattern.
pub proof fn for_infers_its_iterable_and_body(
    env: Env,
    expr: Expr,
    pat: Option<Pat>,
    iterable: Option<Box<Expr>>,
    loop_body: Option<Block>,
    types: Types,
)
    requires
        expr.kind == (ExprKind::ForExpr { pat, iterable, loop_body }),
    ensures
        ({
            let (seen, _) = visit_expr_opt(env, iterable, types);
            let (body_seen, body_ty) = visit_block_opt(env, loop_body, seen);
            let (after, ty) = visit_expr(env, expr, types);
            &&& body_ty is Err ==> ty is Err && after == body_seen
            &&& body_ty is Ok ==> {
                &&& ty == Ok::<_, Canceled>(TyModel::Unknown)
                &&& after == body_seen.insert(ptr_to(expr.syntax), TyModel::Unknown)
            }
        }),
{
    lemma_no_part(env, expr, types);
    lemma_next_part(env, expr, 0, types);
    lemma_next_part(env, expr, 1, types);
}

/// Parentheses change nothing: the expression has the type of the one inside, whatever type that
/// is.
pub proof fn parentheses_change_nothing(
    env: Env,
    expr: Expr,
    inner: Option<Box<Expr>>,
    types: Types,
)
    requires
        expr.kind == (ExprKind::ParenExpr { expr: inner }),
    ensures
        ({
            let (seen, inner_ty) = visit_expr_opt(env, inner, types);
            let (after, ty) = visit_expr(env, expr, types);
            &&& ty == inner_ty
            &&& after == match ty {
                Ok(ty) => seen.insert(ptr_to(expr.syntax), ty),
                Err(_) => seen,
            }
        }),
{
    lemma_no_part(env, expr, types);
    lemma_next_part(env, expr, 0, types);
}

/// A `return` infers what it returns, and is itself of the never type.
pub proof fn return_is_of_the_never_type(
    env: Env,
    expr: Expr,
    inner: Option<Box<Expr>>,
    types: Types,
)
    requires
        expr.kind == (ExprKind::ReturnExpr { expr: inner }),
    ensures
        ({
            let (seen, inner_ty) = visit_expr_opt(env, inner, types);
            let (after, ty) = visit_expr(env, expr, types);
            &&& inner_ty is Err ==> ty is Err && after == seen
            &&& inner_ty is Ok ==> {
                &&& ty == Ok::<_, Canceled>(TyModel::Never)
                &&& after == seen.insert(ptr_to(expr.syntax), TyModel::Never)
            }
        }),
{
    lemma_no_part(env, expr, types);
    lemma_next_part(env, expr, 0, types);
}

/// A lambda infers its body, and `?`, a reference and a prefix operator infer their operand;
/// nothing is known of their own type.
pub proof fn operand_is_inferred(env: Env, expr: Expr, inner: Option<Box<Expr>>, types: Types)
    requires
        ({
            ||| expr.kind == (ExprKind::LambdaExpr { body: inner })
            ||| expr.kind == (ExprKind::TryExpr { expr: inner })
            ||| expr.kind == (ExprKind::RefExpr { expr: inner })
            ||| expr.kind == (ExprKind::PrefixExpr { expr: inner })
        }),
    ensures
        ({
            let (seen, inner_ty) = visit_expr_opt(env, inner, types);
            let (after, ty) = visit_expr(env, expr, types);
            &&& inner_ty is Err ==> ty is Err && after == seen
            &&& inner_ty is Ok ==> {
                &&& ty == Ok::<_, Canceled>(TyModel::Unknown)
                &&& after == seen.insert(ptr_to(expr.syntax), TyModel::Unknown)
            }
        }),
{
    lemma_no_part(env, expr, types);
    lemma_next_part(env, expr, 0, types);
}

/// A cast infers its operand, and has the type that is written, whatever that of the operand is.
pub proof fn cast_has_the_written_type(
    env: Env,
    expr: Expr,
    inner: Option<Box<Expr>>,
    type_ref: Option<TypeRef>,
    types: Types,
)
    requires
        expr.kind == (ExprKind::CastExpr { expr: inner, type_ref }),
    ensures
        ({
            let (seen, inner_ty) = visit_expr_opt(env, inner, types);
            let (after, ty) = visit_expr(env, expr, types);
            &&& inner_ty is Err ==> ty is Err && after == seen
            &&& inner_ty is Ok ==> {
                &&& ty == written_type_opt(env.answers, env.module, type_ref)
                &&& after == match ty {
                    Ok(ty) => seen.insert(ptr_to(expr.syntax), ty),
                    Err(_) => seen,
                }
            }
        }),
{
    lemma_no_part(env, expr, types);
    lemma_next_part(env, expr, 0, types);
}

/// An access to a field infers the receiver, and has the type that the field has in the type of
/// the receiver.
pub proof fn field_access_has_the_type_of_the_field(
    env: Env,
    expr: Expr,
    inner: Option<Box<Expr>>,
    name_ref: Option<NameRef>,
    types: Types,
)
    requires
        expr.kind == (ExprKind::FieldExpr { expr: inner, name_ref }),
    ensures
        ({
            let (seen, receiver) = visit_expr_opt(env, inner, types);
            let (after, ty) = visit_expr(env, expr, types);
            &&& receiver is Err ==> ty is Err && after == seen
            &&& receiver is Ok ==> {
                &&& ty == field_type(env, receiver->Ok_0, name_ref)
                &&& after == match ty {
                    Ok(ty) => seen.insert(ptr_to(expr.syntax), ty),
                    Err(_) => seen,
                }
            }
        }),
{
    lemma_no_part(env, expr, types);
    lemma_next_part(env, expr, 0, types);
}

/// `break` and `continue` are of the never type.
pub proof fn jumps_are_of_the_never_type(env: Env, expr: Expr, types: Types)
    requires
        expr.kind is BreakExpr || expr.kind is ContinueExpr,
    ensures
        visit_expr(env, expr, types) == (
            types.insert(ptr_to(expr.syntax), TyModel::Never),
            Ok::<_, Canceled>(TyModel::Never),
        ),
{
    lemma_no_part(env, expr, types);
}

/// Of the kinds of expressions that are not looked into, nothing is known, and nothing but that
/// is recorded.
pub proof fn nothing_is_known_of_other_kinds(env: Env, expr: Expr, types: Types)
    requires
        ({
            ||| expr.kind is TupleExpr
            ||| expr.kind is ArrayExpr
            ||| expr.kind is Label
            ||| expr.kind is MatchArmList
            ||| expr.kind is MatchArm
            ||| expr.kind is MatchGuard
            ||| expr.kind is NamedFieldList
            ||| expr.kind is NamedField
            ||| expr.kind is IndexExpr
            ||| expr.kind is RangeExpr
            ||| expr.kind is BinExpr
            ||| expr.kind is Literal
        }),
    ensures
        visit_expr(env, expr, types) == (
            types.insert(ptr_to(expr.syntax), TyModel::Unknown),
            Ok::<_, Canceled>(TyModel::Unknown),
        ),
{
    lemma_no_part(env, expr, types);
}

/// A path has the type of what it denotes, and an unknown one where it denotes nothing. A path
/// that is canceled records nothing.
pub proof fn path_has_the_type_of_what_it_denotes(
    env: Env,
    expr: Expr,
    path: Option<AstPath>,
    types: Types,
)
    requires
        expr.kind == (ExprKind::PathExpr { path }),
    ensures
        ({
            let (after, ty) = visit_expr(env, expr, types);
            match path_expr_type(env, types, path) {
                Err(_) => ty is Err && after == types,
                Ok(Some(known)) => {
                    &&& ty == Ok::<_, Canceled>(known)
                    &&& after == types.insert(ptr_to(expr.syntax), known)
                },
                Ok(None) => {
                    &&& ty == Ok::<_, Canceled>(TyModel::Unknown)
                    &&& after == types.insert(ptr_to(expr.syntax), TyModel::Unknown)
                },
            }
        }),
{
    lemma_no_part(env, expr, types);
}

/// Whether `states` are the types recorded before each of the expressions, and behind the last of
/// them, where each is inferred on what the one before it recorded.
pub open spec fn inferred_in_order(
    env: Env,
    exprs: Seq<Option<Box<Expr>>>,
    states: Seq<Types>,
) -> bool {
    &&& states.len() == exprs.len() + 1
    &&& forall|i: int|
        0 <= i < exprs.len() ==> states[i + 1] == (#[trigger] visit_expr_opt(
            env,
            exprs[i],
            states[i],
        )).0
}

/// What is recorded behind the first `k` expressions.
spec fn state_after(env: Env, exprs: Seq<Option<Box<Expr>>>, types: Types, k: nat) -> Types
    decreases k,
{
    if k == 0 {
        types
    } else {
        visit_expr_opt(
            env,
            exprs[k - 1],
            state_after(env, exprs, types, (k - 1) as nat),
        ).0
    }
}

/// What is recorded before each of the expressions, and behind the last of them.
spec fn states_of(env: Env, exprs: Seq<Option<Box<Expr>>>, types: Types) -> Seq<Types> {
    Seq::new(exprs.len() + 1, |k: int| state_after(env, exprs, types, k as nat))
}

/// The parts of an expression that are all expressions are inferred in order, up to the first of
/// them that is canceled.
proof fn lemma_parts_in_order(
    env: Env,
    expr: Expr,
    exprs: Seq<Option<Box<Expr>>>,
    states: Seq<Types>,
    n: nat,
)
    requires
        n <= exprs.len(),
        parts(expr).len() == exprs.len(),
        forall|i: int| 0 <= i < exprs.len() ==> #[trigger] parts(expr)[i] == expr_part(exprs[i]),
        inferred_in_order(env, exprs, states),
    ensures
        ({
            let (seen, tys) = visit_parts(env, expr, n, states[0]);
            &&& tys is Ok <==> forall|i: int|
                0 <= i < n ==> (#[trigger] visit_expr_opt(env, exprs[i], states[i])).1 is Ok
            &&& tys is Ok ==> {
                &&& seen == states[n as int]
                &&& tys->Ok_0.len() == n
                &&& n > 0 ==> Ok::<_, Canceled>(tys->Ok_0[0]) == visit_expr_opt(
                    env,
                    exprs[0],
                    states[0],
                ).1
            }
            &&& forall|k: int|
                0 <= k < n && (#[trigger] visit_expr_opt(env, exprs[k], states[k])).1 is Err && (
                forall|i: int|
                    0 <= i < k ==> (#[trigger] visit_expr_opt(env, exprs[i], states[i])).1 is Ok)
                    ==> seen == states[k + 1]
        }),
    decreases n,
{
    if n == 0 {
        lemma_no_part(env, expr, states[0]);
    } else {
        let m = (n - 1) as nat;
        lemma_parts_in_order(env, expr, exprs, states, m);
        lemma_next_part(env, expr, m, states[0]);
        assert(parts(expr)[m as int] == expr_part(exprs[m as int]));
        let (seen, tys) = visit_parts(env, expr, m, states[0]);
        let outcome = visit_expr_opt(env, exprs[m as int], states[m as int]);
        if tys is Ok {
            assert(part_outcome(env, parts(expr)[m as int], seen) == outcome);
            assert(states[m as int + 1] == outcome.0);
        }
    }
}

/// The types that are recorded behind each of the expressions.
proof fn lemma_states(env: Env, exprs: Seq<Option<Box<Expr>>>, types: Types) -> (states: Seq<Types>)
    ensures
        states.len() > 0,
        states[0] == types,
        inferred_in_order(env, exprs, states),
{
    let states = states_of(env, exprs, types);
    assert forall|i: int| 0 <= i < exprs.len() implies states[i + 1] == (#[trigger] visit_expr_opt(
        env,
        exprs[i],
        states[i],
    )).0 by {
        assert(states[i + 1] == state_after(env, exprs, types, (i + 1) as nat));
        assert(states[i] == state_after(env, exprs, types, i as nat));
    }
    states
}

/// What comes of an expression that infers the given expressions in order, and has the given type
/// where none of them is canceled.
pub open spec fn ends_in(
    env: Env,
    expr: Expr,
    exprs: Seq<Option<Box<Expr>>>,
    states: Seq<Types>,
    result: TyModel,
) -> bool {
    let (after, ty) = visit_expr(env, expr, states[0]);
    &&& (forall|i: int|
        0 <= i < exprs.len() ==> (#[trigger] visit_expr_opt(env, exprs[i], states[i])).1 is Ok) ==> {
        &&& ty == Ok::<_, Canceled>(result)
        &&& after == states[exprs.len() as int].insert(ptr_to(expr.syntax), result)
    }
    &&& forall|k: int|
        0 <= k < exprs.len() && (#[trigger] visit_expr_opt(env, exprs[k], states[k])).1 is Err && (
        forall|i: int|
            0 <= i < k ==> (#[trigger] visit_expr_opt(env, exprs[i], states[i])).1 is Ok) ==> {
            &&& ty is Err
            &&& after == states[k + 1]
        }
}

/// A call infers what is called, then the arguments in order, each on what was recorded before
/// it; the first of them that is canceled ends it. It has the result type of what is called,
/// where that is a function, and an unknown one where it is not. A call of a method infers the
/// receiver and the arguments in the same way; nothing is known of its own type.
pub proof fn call_infers_its_operands_in_order(
    env: Env,
    expr: Expr,
    callee: Option<Box<Expr>>,
    arg_list: Option<ArgList>,
    args: Seq<Expr>,
    types: Types,
) -> (states: Seq<Types>)
    requires
        expr.kind == (ExprKind::CallExpr { expr: callee, arg_list }) || expr.kind == (
        ExprKind::MethodCallExpr { expr: callee, arg_list }),
        match arg_list {
            Some(list) => args == list.args@,
            None => args.len() == 0,
        },
    ensures
        ({
            let exprs = seq![callee] + args.map_values(|arg: Expr| Some(Box::new(arg)));
            let callee_ty = visit_expr_opt(env, callee, types).1->Ok_0;
            &&& states.len() > 0
            &&& states[0] == types
            &&& inferred_in_order(env, exprs, states)
            &&& ends_in(
                env,
                expr,
                exprs,
                states,
                if expr.kind is CallExpr && callee_ty is FnPtr {
                    *callee_ty->output
                } else {
                    TyModel::Unknown
                },
            )
        }),
{
    let exprs = seq![callee] + args.map_values(|arg: Expr| Some(Box::new(arg)));
    let states = lemma_states(env, exprs, types);
    assert forall|i: int| 0 <= i < exprs.len() implies #[trigger] parts(expr)[i] == expr_part(
        exprs[i],
    ) by {}
    lemma_parts_in_order(env, expr, exprs, states, exprs.len());
    states
}

/// A `match` infers what is matched, then its arms in order, each on what was recorded before it;
/// the first of them that is canceled ends it. Nothing is known of its own type.
pub proof fn match_infers_its_arms_in_order(
    env: Env,
    expr: Expr,
    matched: Option<Box<Expr>>,
    match_arm_list: Option<MatchArmList>,
    arms: Seq<MatchArm>,
    types: Types,
) -> (states: Seq<Types>)
    requires
        expr.kind == (ExprKind::MatchExpr { expr: matched, match_arm_list }),
        match match_arm_list {
            Some(list) => arms == list.arms@,
            None => arms.len() == 0,
        },
    ensures
        ({
            let exprs = seq![matched] + arms.map_values(|arm: MatchArm| arm.expr);
            &&& states.len() > 0
            &&& states[0] == types
            &&& inferred_in_order(env, exprs, states)
            &&& ends_in(env, expr, exprs, states, TyModel::Unknown)
        }),
{
    let exprs = seq![matched] + arms.map_values(|arm: MatchArm| arm.expr);
    let states = lemma_states(env, exprs, types);
    assert forall|i: int| 0 <= i < exprs.len() implies #[trigger] parts(expr)[i] == expr_part(
        exprs[i],
    ) by {}
    lemma_parts_in_order(env, expr, exprs, states, exprs.len());
    states
}

/// A struct literal asks first which struct it names, and is canceled with nothing inferred where
/// that is. It then infers its fields in order, each on what was recorded before it; the first of
/// them that is canceled ends it. It has the type of the struct that it names.
pub proof fn literal_infers_its_fields_in_order(
    env: Env,
    expr: Expr,
    path: Option<AstPath>,
    named_field_list: Option<NamedFieldList>,
    fields: Seq<NamedField>,
    types: Types,
) -> (states: Seq<Types>)
    requires
        expr.kind == (ExprKind::StructLit { path, named_field_list }),
        match named_field_list {
            Some(list) => fields == list.fields@,
            None => fields.len() == 0,
        },
    ensures
        variant(env, path) is Err ==> visit_expr(env, expr, types) == (
            types,
            Err::<TyModel, _>(Canceled),
        ),
        variant(env, path) matches Ok(named) ==> {
            let exprs = fields.map_values(|field: NamedField| field.expr);
            &&& states.len() > 0
            &&& states[0] == types
            &&& inferred_in_order(env, exprs, states)
            &&& ends_in(env, expr, exprs, states, named.0)
        },
{
    let exprs = fields.map_values(|field: NamedField| field.expr);
    let states = lemma_states(env, exprs, types);
    assert forall|i: int| 0 <= i < exprs.len() implies #[trigger] parts(expr)[i] == expr_part(
        exprs[i],
    ) by {}
    lemma_parts_in_order(env, expr, exprs, states, exprs.len());
    states
}

} // verus!
