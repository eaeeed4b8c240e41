//! Laws of the language, proved of its definition.

use crate::ast::{BinaryOp, BindingView, ExprView, Native, Span, SpannedView};
use crate::environment::{bind, bind_keeps_unique, kept, lookup, names, prune, unique, Bindings};
use crate::grammar;
use crate::grammar::{additive_of, additive_rest, advance, binary, parse_unary, Tokens};
use crate::semantics::{arity_error, call_function, eval_block, eval_iterations, eval_loop, eval_spec, eval_unfolds, finish_binary, finish_native, float_result, ok, variadic, World};
use crate::session::{asked, SessionView};
use crate::values::{error, EvalErrorKind, EvalErrorView, FlowView};
use vstd::prelude::*;

verus! {

// ---------------------------------------------------------------------------
// Additive chains
// ---------------------------------------------------------------------------

/// An additive chain folds to the left, whatever the operators: where an
/// operand follows `+` or `-`, what stands before becomes the left operand
/// of the operator, and the chain goes on from there. There is no
/// precedence between `+` and `-`: the fold does not look at which of the
/// two it is.
pub proof fn additive_chain_folds_left(
    ts: Tokens,
    left: SpannedView,
    p: int,
    right: SpannedView,
    q: int,
)
    requires
        0 <= p < ts.len(),
        additive_of(ts[p].0) is Some,
        parse_unary(ts, p + 1) == Ok::<(SpannedView, int), grammar::ParseErrorView>((right, q)),
        advance(ts, p, q),
    ensures
        additive_rest(ts, left, p) == additive_rest(
            ts,
            binary(additive_of(ts[p].0)->0, left, right),
            q,
        ),
{
}

/// The value of `(a - b) - c` on integers is the difference of the
/// difference, each taken with wrap-around.
pub proof fn difference_of_difference(a: i64, b: i64, c: i64, span: Span, w: World)
    ensures
        finish_binary(
            BinaryOp::Sub,
            ExprView::Int(vstd::wrapping::i64_specs::wrapping_sub(a, b)),
            ExprView::Int(c),
            span,
            w,
        ) == ok(
            ExprView::Int(
                vstd::wrapping::i64_specs::wrapping_sub(
                    vstd::wrapping::i64_specs::wrapping_sub(a, b),
                    c,
                ),
            ),
            w,
        ),
        finish_binary(BinaryOp::Sub, ExprView::Int(a), ExprView::Int(b), span, w) == ok(
            ExprView::Int(vstd::wrapping::i64_specs::wrapping_sub(a, b)),
            w,
        ),
{
}

/// Whether a value is a number.
pub open spec fn is_number(v: ExprView) -> bool {
    v is Int || v is Float
}

/// Addition by the kinds of its operands: two integers give their sum as an
/// integer, two strings their concatenation; a number and a floating-point
/// number give what the host computes; any other pairing is a type
/// mismatch that names both kinds. Subtraction is the same without the
/// case of strings.
pub proof fn typed_arithmetic(op: BinaryOp, l: ExprView, r: ExprView, span: Span, w: World)
    requires
        op is Add || op is Sub,
    ensures
        (l matches ExprView::Int(a) && r matches ExprView::Int(b)) ==> finish_binary(
            op,
            l,
            r,
            span,
            w,
        ) == ok(
            ExprView::Int(
                if op is Add {
                    vstd::wrapping::i64_specs::wrapping_add(l->Int_0, r->Int_0)
                } else {
                    vstd::wrapping::i64_specs::wrapping_sub(l->Int_0, r->Int_0)
                },
            ),
            w,
        ),
        (l is String && r is String && op is Add) ==> finish_binary(op, l, r, span, w) == ok(
            ExprView::String(l->String_0 + r->String_0),
            w,
        ),
        (is_number(l) && is_number(r) && (l is Float || r is Float)) ==> finish_binary(
            op,
            l,
            r,
            span,
            w,
        ) == float_result(crate::session::FloatOp::Binary(op), l, r, span, w),
        !(is_number(l) && is_number(r)) && !(l is String && r is String && op is Add)
            ==> finish_binary(op, l, r, span, w) == crate::semantics::raise(
            EvalErrorKind::TypeMismatch {
                operator: crate::values::Operator::Binary(op),
                left: crate::values::kind_of(l),
                right: crate::values::kind_of(r),
            },
            ""@,
            span,
            w,
        ),
{
}

/// Equality never fails: on operands of kinds that do not compare, `==` is
/// false and `!=` is true. The ordering comparisons fail on any operand
/// that is not a number.
pub proof fn typed_comparison(op: BinaryOp, l: ExprView, r: ExprView, span: Span, w: World)
    requires
        !(op is Add || op is Sub),
    ensures
        (op is Equal || op is NotEqual) && !(is_number(l) && is_number(r) && (l is Float || r
            is Float)) ==> finish_binary(op, l, r, span, w).0 is Ok,
        (op is Equal) && crate::values::kind_of(l) != crate::values::kind_of(r) && !(is_number(l)
            && is_number(r)) ==> finish_binary(op, l, r, span, w) == ok(ExprView::Bool(false), w),
        (op is NotEqual) && crate::values::kind_of(l) != crate::values::kind_of(r) && !(is_number(
            l,
        ) && is_number(r)) ==> finish_binary(op, l, r, span, w) == ok(ExprView::Bool(true), w),
        !(op is Equal || op is NotEqual) && !(is_number(l) && is_number(r)) ==> finish_binary(
            op,
            l,
            r,
            span,
            w,
        ) == crate::semantics::raise(
            EvalErrorKind::TypeMismatch {
                operator: crate::values::Operator::Binary(op),
                left: crate::values::kind_of(l),
                right: crate::values::kind_of(r),
            },
            ""@,
            span,
            w,
        ),
{
}

// ---------------------------------------------------------------------------
// Break and continue
// ---------------------------------------------------------------------------

/// Inside a block, `break` and `continue` end the block at once: the
/// statements after the one that gave the signal do not run, and the signal
/// is handed on as it is.
pub proof fn signal_ends_block(
    stmts: Seq<SpannedView>,
    i: int,
    w: World,
    keep: Seq<Seq<char>>,
    depth: nat,
)
    requires
        0 <= i < stmts.len(),
        eval_spec(stmts[i], w, depth).0 == Ok::<FlowView, EvalErrorView>(FlowView::Break)
            || eval_spec(stmts[i], w, depth).0 == Ok::<FlowView, EvalErrorView>(FlowView::Skip),
    ensures
        eval_block(stmts, i, w, keep, depth) == eval_spec(stmts[i], w, depth),
{
}

/// `break` ends a `for` loop at once: no further iteration runs, and the
/// loop completes normally with null.
pub proof fn break_ends_for(
    name: Seq<char>,
    i: int,
    end: int,
    body: SpannedView,
    w: World,
    depth: nat,
)
    requires
        i < end,
        eval_spec(
            body,
            World { env: bind(w.env, name, ExprView::Int(i as i64)), session: w.session },
            depth,
        ).0 == Ok::<FlowView, EvalErrorView>(FlowView::Break),
    ensures
        eval_iterations(name, i, end, body, w, depth) == ok(
            ExprView::Null,
            eval_spec(
                body,
                World { env: bind(w.env, name, ExprView::Int(i as i64)), session: w.session },
                depth,
            ).1,
        ),
{
}

/// `continue` ends only the current iteration of a `for` loop: the loop
/// goes on with the next integer.
pub proof fn continue_goes_on_for(
    name: Seq<char>,
    i: int,
    end: int,
    body: SpannedView,
    w: World,
    depth: nat,
)
    requires
        i < end,
        eval_spec(
            body,
            World { env: bind(w.env, name, ExprView::Int(i as i64)), session: w.session },
            depth,
        ).0 == Ok::<FlowView, EvalErrorView>(FlowView::Skip),
    ensures
        eval_iterations(name, i, end, body, w, depth) == eval_iterations(
            name,
            i + 1,
            end,
            body,
            eval_spec(
                body,
                World { env: bind(w.env, name, ExprView::Int(i as i64)), session: w.session },
                depth,
            ).1,
            depth,
        ),
{
}

/// The integers for which a `for` loop starts its body, in the order in
/// which it does.
pub open spec fn visited(
    name: Seq<char>,
    i: int,
    end: int,
    body: SpannedView,
    w: World,
    depth: nat,
) -> Seq<int>
    decreases end - i,
{
    if i >= end {
        Seq::empty()
    } else {
        let (r, after) = eval_spec(
            body,
            World { env: bind(w.env, name, ExprView::Int(i as i64)), session: w.session },
            depth,
        );
        match r {
            Ok(FlowView::Continue(_)) | Ok(FlowView::Skip) => seq![i] + visited(
                name,
                i + 1,
                end,
                body,
                after,
                depth,
            ),
            _ => seq![i],
        }
    }
}

/// A `for` loop over the integers from `i` up to, not including, `end`
/// visits them one by one in increasing order, starting with `i`, and never
/// reaches `end`. (The inclusive range `a..=b` is the loop up to `b + 1`,
/// so it visits `b` as well.)
pub proof fn for_visits_in_order(
    name: Seq<char>,
    i: int,
    end: int,
    body: SpannedView,
    w: World,
    depth: nat,
)
    ensures
        visited(name, i, end, body, w, depth).len() <= if end > i {
            end - i
        } else {
            0
        },
        forall|k: int|
            0 <= k < visited(name, i, end, body, w, depth).len() ==> visited(
                name,
                i,
                end,
                body,
                w,
                depth,
            )[k] == i + k,
    decreases end - i,
{
    if i < end {
        let (r, after) = eval_spec(
            body,
            World { env: bind(w.env, name, ExprView::Int(i as i64)), session: w.session },
            depth,
        );
        for_visits_in_order(name, i + 1, end, body, after, depth);
        let rest = visited(name, i + 1, end, body, after, depth);
        let all = visited(name, i, end, body, w, depth);
        match r {
            Ok(FlowView::Continue(_)) | Ok(FlowView::Skip) => {
                assert(all == seq![i] + rest);
                assert forall|k: int| 0 <= k < all.len() implies all[k] == i + k by {
                    if k > 0 {
                        assert(all[k] == rest[k - 1]);
                    }
                }
            },
            _ => {},
        }
    }
}

/// A `for` loop whose body always completes normally visits every integer
/// of its range.
pub proof fn for_visits_all(
    name: Seq<char>,
    i: int,
    end: int,
    body: SpannedView,
    w: World,
    depth: nat,
)
    requires
        forall|any: World| (#[trigger] eval_spec(body, any, depth)).0 is Ok && eval_spec(
            body,
            any,
            depth,
        ).0->Ok_0 is Continue,
    ensures
        visited(name, i, end, body, w, depth).len() == if end > i {
            end - i
        } else {
            0
        },
        eval_iterations(name, i, end, body, w, depth).0 == Ok::<FlowView, EvalErrorView>(
            FlowView::Continue(ExprView::Null),
        ),
    decreases end - i,
{
    if i < end {
        let w0 = World { env: bind(w.env, name, ExprView::Int(i as i64)), session: w.session };
        let (r, after) = eval_spec(body, w0, depth);
        assert(eval_spec(body, w0, depth).0 is Ok);
        for_visits_all(name, i + 1, end, body, after, depth);
    }
}

/// The world in which an iteration of `loop` runs its body: one step is
/// taken from the session.
pub open spec fn stepped(w: World) -> World {
    World { env: w.env, session: SessionView { steps: w.session.steps - 1, ..w.session } }
}

/// `break` ends a `loop` at once: the loop completes normally with null.
pub proof fn break_ends_loop(body: SpannedView, w: World, depth: nat)
    requires
        w.session.steps > 0,
        eval_spec(body, stepped(w), depth).0 == Ok::<FlowView, EvalErrorView>(FlowView::Break),
    ensures
        eval_loop(body, w, depth) == ok(ExprView::Null, eval_spec(body, stepped(w), depth).1),
{
}

/// `continue` ends only the current iteration of a `loop`: the loop goes
/// on with the next iteration.
pub proof fn continue_goes_on_loop(body: SpannedView, w: World, depth: nat)
    requires
        w.session.steps > 0,
        eval_spec(body, stepped(w), depth).0 == Ok::<FlowView, EvalErrorView>(FlowView::Skip),
        0 <= eval_spec(body, stepped(w), depth).1.session.steps < w.session.steps,
    ensures
        eval_loop(body, w, depth) == eval_loop(body, eval_spec(body, stepped(w), depth).1, depth),
{
}

// ---------------------------------------------------------------------------
// Arity
// ---------------------------------------------------------------------------

/// A function of the program that is called with more arguments than it has
/// parameters fails with an arity mismatch that counts the extra arguments,
/// over the span from the first extra argument to the last.
pub proof fn too_many_arguments(
    e: SpannedView,
    formal: Seq<Seq<char>>,
    body: SpannedView,
    actuals: Seq<SpannedView>,
    span: Span,
    w: World,
    depth: nat,
)
    requires
        actuals.len() > formal.len(),
    ensures
        call_function(e, formal, body, actuals, span, w, depth) == (
            Err::<FlowView, EvalErrorView>(
                error(
                    EvalErrorKind::ArityMismatch {
                        too_many: true,
                        count: (actuals.len() - formal.len()) as usize,
                    },
                    ""@,
                    Span {
                        start: actuals[formal.len() as int].span.start,
                        end: actuals[actuals.len() - 1].span.end,
                    },
                ),
            ),
            w,
        ),
{
}

/// A function of the program that is called with fewer arguments than it
/// has parameters fails with an arity mismatch that counts the missing
/// arguments, over the span of the call.
pub proof fn too_few_arguments(
    e: SpannedView,
    formal: Seq<Seq<char>>,
    body: SpannedView,
    actuals: Seq<SpannedView>,
    span: Span,
    w: World,
    depth: nat,
)
    requires
        actuals.len() < formal.len(),
    ensures
        call_function(e, formal, body, actuals, span, w, depth) == (
            Err::<FlowView, EvalErrorView>(
                error(
                    EvalErrorKind::ArityMismatch {
                        too_many: false,
                        count: (formal.len() - actuals.len()) as usize,
                    },
                    ""@,
                    span,
                ),
            ),
            w,
        ),
{
}

/// A native function that is not variadic fails in the same way where the
/// number of its arguments, the receiver included, is not that of its
/// parameters.
pub proof fn native_arity_is_checked(
    callee: SpannedView,
    formal: Seq<Seq<char>>,
    func: Native,
    actuals: Seq<SpannedView>,
    span: Span,
    w: World,
)
    requires
        !variadic(formal),
        actuals.len() != formal.len(),
    ensures
        finish_native(callee, formal, func, actuals, span, w) == (
            Err::<FlowView, EvalErrorView>(arity_error(formal.len() as int, actuals, span)->0),
            w,
        ),
        arity_error(formal.len() as int, actuals, span)->0.kind == (EvalErrorKind::ArityMismatch {
            too_many: actuals.len() > formal.len(),
            count: (if actuals.len() > formal.len() {
                actuals.len() - formal.len()
            } else {
                formal.len() - actuals.len()
            }) as usize,
        }),
{
}

// ---------------------------------------------------------------------------
// Blocks
// ---------------------------------------------------------------------------

proof fn kept_lookup(env: Bindings, keep: Seq<Seq<char>>, n: int, name: Seq<char>)
    requires
        0 <= n <= env.len(),
    ensures
        keep.contains(name) ==> lookup(kept(env, keep, n), name) == lookup(env.subrange(0, n), name),
        !keep.contains(name) ==> lookup(kept(env, keep, n), name) is None,
    decreases n,
{
    let k = kept(env, keep, n);
    crate::environment::find_is_first(k, name, 0);
    crate::environment::find_is_first(env.subrange(0, n), name, 0);
    if n > 0 {
        kept_lookup(env, keep, n - 1, name);
        let before = kept(env, keep, n - 1);
        crate::environment::find_is_first(before, name, 0);
        crate::environment::find_is_first(env.subrange(0, n - 1), name, 0);
        let prefix = env.subrange(0, n);
        let shorter = env.subrange(0, n - 1);
        assert forall|j: int| 0 <= j < n - 1 implies prefix[j] == shorter[j] by {}
        assert(prefix[n - 1] == env[n - 1]);
        if keep.contains(env[n - 1].name) {
            assert(k == before.push(env[n - 1]));
            assert forall|j: int| 0 <= j < before.len() implies k[j] == before[j] by {}
            if keep.contains(name) {
                let a = crate::environment::find(before, name);
                let b = crate::environment::find(shorter, name);
                if a < before.len() {
                    assert(k[a].name == name);
                    assert(crate::environment::find(k, name) == a);
                    assert(prefix[b].name == name);
                    assert(crate::environment::find(prefix, name) == b);
                } else {
                    assert(b == shorter.len());
                    if env[n - 1].name == name {
                        assert(k[before.len() as int].name == name);
                        assert(crate::environment::find(k, name) == before.len());
                        assert(crate::environment::find(prefix, name) == n - 1);
                    } else {
                        assert(crate::environment::find(k, name) == k.len());
                        assert(crate::environment::find(prefix, name) == n);
                    }
                }
            } else {
                assert(env[n - 1].name != name);
                assert(crate::environment::find(k, name) == k.len());
            }
        } else {
            assert(k == before);
            if keep.contains(name) {
                assert(env[n - 1].name != name);
                let b = crate::environment::find(shorter, name);
                if b < shorter.len() {
                    assert(prefix[b].name == name);
                    assert(crate::environment::find(prefix, name) == b);
                } else {
                    assert(crate::environment::find(prefix, name) == n);
                }
            }
        }
    } else {
        assert(env.subrange(0, 0) =~= Seq::<BindingView>::empty());
    }
}

/// When a block has run to its end, the names that it introduced are
/// gone, and every name that was bound before has the value that the block
/// left it with: a `let` of a new name is local to the block, a `let` of a
/// name from outside changes the outer binding for good.
pub proof fn block_scoping(env: Bindings, keep: Seq<Seq<char>>, name: Seq<char>)
    ensures
        keep.contains(name) ==> lookup(prune(env, keep), name) == lookup(env, name),
        !keep.contains(name) ==> lookup(prune(env, keep), name) is None,
{
    kept_lookup(env, keep, env.len() as int, name);
    assert(env.subrange(0, env.len() as int) =~= env);
}

// ---------------------------------------------------------------------------
// Pure expressions
// ---------------------------------------------------------------------------

/// Whether a node is an arithmetic or comparison expression: literals and
/// names under unary minus and the binary operators.
pub open spec fn arithmetic(e: SpannedView) -> bool
    decreases e,
{
    match e.node {
        ExprView::Int(_) => true,
        ExprView::Float(_) => true,
        ExprView::FloatLiteral(_) => true,
        ExprView::String(_) => true,
        ExprView::Bool(_) => true,
        ExprView::Null => true,
        ExprView::Identifier(_) => true,
        ExprView::Neg(inner) => arithmetic(*inner),
        ExprView::Binary { op, left, right } => arithmetic(*left) && arithmetic(*right),
        _ => false,
    }
}

/// Whether an outcome is a suspension.
pub open spec fn suspended(r: Result<FlowView, EvalErrorView>) -> bool {
    r matches Err(e) && e.kind == EvalErrorKind::Suspended
}

/// What an arithmetic expression can at most do to the world: take answers
/// of the host, or leave a request pending. The environment, the output and
/// everything else stay as they are; and unless an answer was taken or the
/// evaluation was suspended, the world is the same.
pub open spec fn undisturbed(before: World, r: Result<FlowView, EvalErrorView>, after: World) -> bool {
    &&& after.env == before.env
    &&& after.session.output == before.session.output
    &&& after.session.answers == before.session.answers
    &&& after.session.steps == before.session.steps
    &&& after.session.sandbox == before.session.sandbox
    &&& after.session.directory == before.session.directory
    &&& after.session.platform == before.session.platform
    &&& after.session.cursor >= before.session.cursor
    &&& (after.session.cursor == before.session.cursor && !suspended(r) ==> after == before)
}

proof fn float_result_undisturbed(
    op: crate::session::FloatOp,
    l: ExprView,
    r: ExprView,
    span: Span,
    w: World,
)
    ensures
        undisturbed(w, float_result(op, l, r, span, w).0, float_result(op, l, r, span, w).1),
{
}

/// The evaluation of an arithmetic or comparison expression has no side
/// effect on the program: it leaves the environment and the output as they
/// are. Unless it had to ask the host (for floating-point arithmetic), it
/// leaves the whole world as it is.
pub proof fn arithmetic_is_pure(e: SpannedView, w: World, depth: nat)
    requires
        arithmetic(e),
    ensures
        undisturbed(w, eval_spec(e, w, depth).0, eval_spec(e, w, depth).1),
    decreases e,
{
    eval_unfolds(e, w, depth);
    match e.node {
        ExprView::Neg(inner) => {
            arithmetic_is_pure(*inner, w, depth);
            let (r1, w1) = eval_spec(*inner, w, depth);
            match r1 {
                Err(_) => {},
                Ok(flow) => {
                    let v = crate::values::unwrapped(flow);
                    float_result_undisturbed(
                        crate::session::FloatOp::Negate,
                        v,
                        ExprView::Null,
                        e.span,
                        w1,
                    );
                },
            }
        },
        ExprView::Binary { op, left, right } => {
            arithmetic_is_pure(*left, w, depth);
            let (r1, w1) = eval_spec(*left, w, depth);
            match r1 {
                Err(_) => {},
                Ok(l) => {
                    arithmetic_is_pure(*right, w1, depth);
                    let (r2, w2) = eval_spec(*right, w1, depth);
                    match r2 {
                        Err(_) => {},
                        Ok(r) => {
                            float_result_undisturbed(
                                crate::session::FloatOp::Binary(op),
                                crate::values::unwrapped(l),
                                crate::values::unwrapped(r),
                                e.span,
                                w2,
                            );
                        },
                    }
                },
            }
        },
        ExprView::FloatLiteral(text) => {
            float_result_undisturbed(
                crate::session::FloatOp::Parse,
                ExprView::String(text),
                ExprView::Null,
                e.span,
                w,
            );
        },
        _ => {},
    }
}

/// Evaluating an arithmetic or comparison expression twice from the same
/// world gives the same result, and where the first evaluation did not have
/// to ask the host, evaluating it again from where the first one ended gives
/// that result too.
pub proof fn evaluating_twice(e: SpannedView, w: World, depth: nat)
    requires
        arithmetic(e),
    ensures
        ({
            let (r, after) = eval_spec(e, w, depth);
            after.session.cursor == w.session.cursor && !suspended(r) ==> eval_spec(e, after, depth)
                == (r, after)
        }),
{
    arithmetic_is_pure(e, w, depth);
}

// ---------------------------------------------------------------------------
// Imports
// ---------------------------------------------------------------------------

/// A call of a bare name that is not bound fails as an undefined function.
pub proof fn unbound_callee_is_undefined(name: Seq<char>, span: Span, w: World, depth: nat)
    requires
        !crate::environment::binds(w.env, name),
    ensures
        crate::semantics::eval_callee(SpannedView { node: ExprView::Identifier(name), span }, w, depth)
            == crate::semantics::raise(EvalErrorKind::UndefinedFunction, name, span, w),
{
}

proof fn merged_lookup(env: Bindings, extra: Bindings, n: int, name: Seq<char>)
    requires
        unique(extra),
        0 <= n <= extra.len(),
    ensures
        lookup(crate::environment::merged(env, extra, n), name) == (if crate::environment::binds(
            extra.subrange(0, n),
            name,
        ) {
            lookup(extra.subrange(0, n), name)
        } else {
            lookup(env, name)
        }),
    decreases n,
{
    let prefix = extra.subrange(0, n);
    crate::environment::find_is_first(prefix, name, 0);
    if n > 0 {
        let shorter = extra.subrange(0, n - 1);
        merged_lookup(env, extra, n - 1, name);
        crate::environment::find_is_first(shorter, name, 0);
        let before = crate::environment::merged(env, extra, n - 1);
        crate::environment::bind_then_lookup(before, extra[n - 1].name, extra[n - 1].value, name);
        assert forall|j: int| 0 <= j < n - 1 implies prefix[j] == shorter[j] by {}
        assert(prefix[n - 1] == extra[n - 1]);
        let a = crate::environment::find(shorter, name);
        let b = crate::environment::find(prefix, name);
        if extra[n - 1].name == name {
            assert forall|j: int| 0 <= j < n - 1 implies shorter[j].name != name by {
                assert(extra[j].name != extra[n - 1].name);
            }
            assert(a == n - 1);
            assert(b == n - 1);
        } else {
            if a < n - 1 {
                assert(prefix[a].name == name);
                assert(b == a);
            } else {
                assert(b == n);
            }
        }
    } else {
        assert(prefix =~= Seq::<BindingView>::empty());
    }
}

/// After an import with the alias `*`, every symbol of the imported unit
/// is bound under its own name, and every other name is bound as before.
pub proof fn star_import_binds_each_symbol(env: Bindings, symbols: Bindings, name: Seq<char>)
    requires
        unique(symbols),
    ensures
        lookup(crate::semantics::imported(env, "*"@, symbols), name) == (
        if crate::environment::binds(symbols, name) {
            lookup(symbols, name)
        } else {
            lookup(env, name)
        }),
{
    merged_lookup(env, symbols, symbols.len() as int, name);
    assert(symbols.subrange(0, symbols.len() as int) =~= symbols);
}

/// After an import with any other alias, the alias is bound to a module of
/// the unit's symbols, whose properties are the symbols, and every other
/// name is bound as before.
pub proof fn named_import_binds_a_module(
    env: Bindings,
    alias: Seq<char>,
    symbols: Bindings,
    name: Seq<char>,
)
    requires
        alias != "*"@,
    ensures
        lookup(crate::semantics::imported(env, alias, symbols), alias) == Some(
            ExprView::Module { symbols },
        ),
        name != alias ==> lookup(crate::semantics::imported(env, alias, symbols), name) == lookup(
            env,
            name,
        ),
        crate::environment::binds(symbols, name) ==> crate::semantics::property_of(
            ExprView::Module { symbols },
            name,
        ) == Ok::<ExprView, EvalErrorKind>(lookup(symbols, name)->0),
{
    crate::environment::bind_then_lookup(env, alias, ExprView::Module { symbols }, name);
}

// ---------------------------------------------------------------------------
// Tokens
// ---------------------------------------------------------------------------

proof fn tail_shrinks(cs: Seq<char>, i: int, j: int)
    requires
        0 <= i <= j <= cs.len(),
    ensures
        vstd::utf8::encode_utf8(cs.skip(j)).len() <= vstd::utf8::encode_utf8(cs.skip(i)).len(),
        i < j ==> vstd::utf8::encode_utf8(cs.skip(j)).len() < vstd::utf8::encode_utf8(
            cs.skip(i),
        ).len(),
    decreases j - i,
{
    if i < j {
        tail_shrinks(cs, i + 1, j);
        assert(cs.skip(i).drop_first() =~= cs.skip(i + 1));
        assert(cs.skip(i).len() > 0);
        vstd::utf8::char_is_scalar(cs[i]);
        assert(cs.skip(i)[0] == cs[i]);
        assert(vstd::utf8::encode_scalar(cs[i] as u32).len() >= 1);
    }
}

/// The byte offset grows with the position: a later character starts at a
/// later byte, and no offset lies beyond the end of the source.
pub proof fn byte_offsets_grow(cs: Seq<char>, i: int, j: int)
    requires
        0 <= i <= j <= cs.len(),
    ensures
        0 <= crate::lexer::byte_offset(cs, i) <= crate::lexer::byte_offset(cs, j)
            <= vstd::utf8::encode_utf8(cs).len(),
        i < j ==> crate::lexer::byte_offset(cs, i) < crate::lexer::byte_offset(cs, j),
{
    tail_shrinks(cs, i, j);
    tail_shrinks(cs, 0, i);
    tail_shrinks(cs, j, cs.len() as int);
    assert(cs.skip(0) =~= cs);
}

/// Whether the tokens from position `k` on lie one after the other, none
/// of them empty, between the byte offset `from` and the end of a source of
/// `total` bytes.
pub open spec fn in_order(tokens: Seq<(crate::lexer::TokenView, Span)>, k: int, from: int, total: int) -> bool
    decreases tokens.len() - k,
{
    if k < 0 || k >= tokens.len() {
        true
    } else {
        &&& from <= tokens[k].1.start < tokens[k].1.end <= total
        &&& in_order(tokens, k + 1, tokens[k].1.end as int, total)
    }
}

proof fn in_order_from_earlier(
    tokens: Seq<(crate::lexer::TokenView, Span)>,
    k: int,
    from: int,
    earlier: int,
    total: int,
)
    requires
        in_order(tokens, k, from, total),
        earlier <= from,
    ensures
        in_order(tokens, k, earlier, total),
{
}

proof fn in_order_after_first(
    first: (crate::lexer::TokenView, Span),
    rest: Seq<(crate::lexer::TokenView, Span)>,
    k: int,
    from: int,
    total: int,
)
    requires
        0 <= k <= rest.len(),
        in_order(rest, k, from, total),
    ensures
        in_order(seq![first] + rest, k + 1, from, total),
    decreases rest.len() - k,
{
    let all = seq![first] + rest;
    if k < rest.len() {
        assert(all[k + 1] == rest[k]);
        in_order_after_first(first, rest, k + 1, rest[k].1.end as int, total);
    }
}

proof fn tokens_from_lie_in_order(cs: Seq<char>, i: int)
    requires
        0 <= i <= cs.len(),
        vstd::utf8::encode_utf8(cs).len() <= usize::MAX,
    ensures
        crate::lexer::lex_from(cs, i) matches Ok(tokens) ==> in_order(
            tokens,
            0,
            crate::lexer::byte_offset(cs, i),
            vstd::utf8::encode_utf8(cs).len() as int,
        ),
    decreases cs.len() - i,
{
    if i < cs.len() {
        let scan = crate::lexer::scan_at(cs, i);
        if i < scan.end <= cs.len() {
            byte_offsets_grow(cs, i, scan.end);
            tokens_from_lie_in_order(cs, scan.end);
            match scan.lexeme {
                crate::lexer::Lexeme::Skip => {
                    match crate::lexer::lex_from(cs, scan.end) {
                        Ok(rest) => {
                            in_order_from_earlier(
                                rest,
                                0,
                                crate::lexer::byte_offset(cs, scan.end),
                                crate::lexer::byte_offset(cs, i),
                                vstd::utf8::encode_utf8(cs).len() as int,
                            );
                        },
                        Err(_) => {},
                    }
                },
                crate::lexer::Lexeme::Token(t) => {
                    match crate::lexer::lex_from(cs, scan.end) {
                        Ok(rest) => {
                            let first = (t, crate::lexer::span_between(cs, i, scan.end));
                            in_order_after_first(
                                first,
                                rest,
                                0,
                                crate::lexer::byte_offset(cs, scan.end),
                                vstd::utf8::encode_utf8(cs).len() as int,
                            );
                            assert((seq![first] + rest)[0] == first);
                        },
                        Err(_) => {},
                    }
                },
                _ => {},
            }
        }
    }
}

/// The tokens of a source text lie in it one after the other: each span is
/// a non-empty range of bytes of the source, and each token starts at or
/// after the end of the one before.
pub proof fn tokens_lie_in_order(source: Seq<char>)
    requires
        vstd::utf8::encode_utf8(source).len() <= usize::MAX,
    ensures
        crate::lexer::lex(source) matches Ok(tokens) ==> in_order(
            tokens,
            0,
            0,
            vstd::utf8::encode_utf8(source).len() as int,
        ),
{
    tokens_from_lie_in_order(source, 0);
    assert(source.skip(0) =~= source);
}

// ---------------------------------------------------------------------------
// Spans
// ---------------------------------------------------------------------------

/// Whether the node `e` that was parsed from the tokens from `p` up to `q`
/// has the span of exactly those tokens: from the start of the first to the
/// end of the last.
pub open spec fn covers(ts: Tokens, p: int, e: SpannedView, q: int) -> bool {
    &&& advance(ts, p, q)
    &&& e.span == grammar::join(ts[p].1, ts[q - 1].1)
}

/// Whether the chain `e` that continues `left` up to `q` starts where
/// `left` starts and, where it took tokens, ends with the last of them.
pub open spec fn continues(ts: Tokens, left: SpannedView, p: int, e: SpannedView, q: int) -> bool {
    &&& p <= q <= ts.len()
    &&& e.span.start == left.span.start
    &&& (q == p ==> e == left)
    &&& (q > p ==> p >= 0 && e.span.end == ts[q - 1].1.end)
}

/// The span of every expression is that of the tokens it was parsed from:
/// folding a chain extends the span of the left operand to the end of the
/// right one, so the span of the whole covers all of its parts.
pub proof fn expression_span_covers(ts: Tokens, p: int)
    ensures
        grammar::parse_expr(ts, p) matches Ok((e, q)) ==> covers(ts, p, e, q),
    decreases ts.len() - p, 9nat,
{
    grammar::parse_expr_unfolds(ts, p);
    inclusive_range_span_covers(ts, p);
    match grammar::parse_inclusive_range(ts, p) {
        Ok((left, q)) => {
            if advance(ts, p, q) {
                comparison_chain_continues(ts, left, q);
            }
        },
        Err(_) => {},
    }
}

proof fn comparison_chain_continues(ts: Tokens, left: SpannedView, p: int)
    requires
        0 <= p <= ts.len(),
    ensures
        grammar::comparison_rest(ts, left, p) matches Ok((e, q)) ==> continues(ts, left, p, e, q),
    decreases ts.len() - p, 9nat,
{
    if 0 <= p < ts.len() && grammar::comparison_of(ts[p].0) is Some {
        inclusive_range_span_covers(ts, p + 1);
        match grammar::parse_inclusive_range(ts, p + 1) {
            Ok((right, q)) => {
                if advance(ts, p, q) {
                    comparison_chain_continues(
                        ts,
                        binary(grammar::comparison_of(ts[p].0)->0, left, right),
                        q,
                    );
                }
            },
            Err(_) => {},
        }
    }
}

proof fn inclusive_range_span_covers(ts: Tokens, p: int)
    ensures
        grammar::parse_inclusive_range(ts, p) matches Ok((e, q)) ==> covers(ts, p, e, q),
    decreases ts.len() - p, 8nat,
{
    range_span_covers(ts, p);
    match grammar::parse_range(ts, p) {
        Ok((left, q)) => {
            if advance(ts, p, q) && grammar::is_at(ts, q, crate::lexer::TokenView::InclusiveRange) {
                range_span_covers(ts, q + 1);
            }
        },
        Err(_) => {},
    }
}

proof fn range_span_covers(ts: Tokens, p: int)
    ensures
        grammar::parse_range(ts, p) matches Ok((e, q)) ==> covers(ts, p, e, q),
    decreases ts.len() - p, 7nat,
{
    additive_span_covers(ts, p);
    match grammar::parse_additive(ts, p) {
        Ok((left, q)) => {
            if advance(ts, p, q) && grammar::is_at(ts, q, crate::lexer::TokenView::Range) {
                additive_span_covers(ts, q + 1);
            }
        },
        Err(_) => {},
    }
}

proof fn additive_span_covers(ts: Tokens, p: int)
    ensures
        grammar::parse_additive(ts, p) matches Ok((e, q)) ==> covers(ts, p, e, q),
    decreases ts.len() - p, 6nat,
{
    grammar::parse_additive_unfolds(ts, p);
    unary_span_covers(ts, p);
    match parse_unary(ts, p) {
        Ok((left, q)) => {
            if advance(ts, p, q) {
                additive_chain_continues(ts, left, q);
            }
        },
        Err(_) => {},
    }
}

proof fn additive_chain_continues(ts: Tokens, left: SpannedView, p: int)
    requires
        0 <= p <= ts.len(),
    ensures
        additive_rest(ts, left, p) matches Ok((e, q)) ==> continues(ts, left, p, e, q),
    decreases ts.len() - p, 6nat,
{
    if 0 <= p < ts.len() && additive_of(ts[p].0) is Some {
        unary_span_covers(ts, p + 1);
        match parse_unary(ts, p + 1) {
            Ok((right, q)) => {
                if advance(ts, p, q) {
                    additive_chain_continues(ts, binary(additive_of(ts[p].0)->0, left, right), q);
                }
            },
            Err(_) => {},
        }
    }
}

proof fn unary_span_covers(ts: Tokens, p: int)
    ensures
        parse_unary(ts, p) matches Ok((e, q)) ==> covers(ts, p, e, q),
    decreases ts.len() - p, 5nat,
{
    if grammar::is_at(ts, p, crate::lexer::TokenView::Minus) {
        unary_span_covers(ts, p + 1);
    } else {
        postfix_span_covers(ts, p);
    }
}

proof fn postfix_span_covers(ts: Tokens, p: int)
    ensures
        grammar::parse_postfix(ts, p) matches Ok((e, q)) ==> covers(ts, p, e, q),
    decreases ts.len() - p, 4nat,
{
    primary_span_covers(ts, p);
    match grammar::parse_primary(ts, p) {
        Ok((left, q)) => {
            if advance(ts, p, q) {
                postfix_chain_continues(ts, left, q);
            }
        },
        Err(_) => {},
    }
}

proof fn postfix_chain_continues(ts: Tokens, left: SpannedView, p: int)
    requires
        0 <= p <= ts.len(),
    ensures
        grammar::postfix_rest(ts, left, p) matches Ok((e, q)) ==> continues(ts, left, p, e, q),
    decreases ts.len() - p, 4nat,
{
    if grammar::is_at(ts, p, crate::lexer::TokenView::Dot) {
        if 0 <= p + 1 < ts.len() && ts[p + 1].0 is Identifer {
            postfix_chain_continues(
                ts,
                SpannedView {
                    node: ExprView::PropertyAccess {
                        object: Box::new(left),
                        property: ts[p + 1].0->Identifer_0,
                    },
                    span: grammar::join(left.span, ts[p + 1].1),
                },
                p + 2,
            );
        }
    } else if grammar::is_at(ts, p, crate::lexer::TokenView::LParen) {
        match grammar::parse_arguments(ts, p + 1, Seq::empty()) {
            Ok((args, q)) => {
                if advance(ts, p + 1, q) {
                    postfix_chain_continues(
                        ts,
                        SpannedView {
                            node: ExprView::Call { callee: Box::new(left), args },
                            span: grammar::join(left.span, ts[q - 1].1),
                        },
                        q,
                    );
                }
            },
            Err(_) => {},
        }
    } else if grammar::is_at(ts, p, crate::lexer::TokenView::LSquareBracket) {
        match grammar::parse_expr(ts, p + 1) {
            Ok((index, q)) => {
                if advance(ts, p, q) && grammar::is_at(
                    ts,
                    q,
                    crate::lexer::TokenView::RSquareBracket,
                ) {
                    postfix_chain_continues(
                        ts,
                        SpannedView {
                            node: ExprView::IndexAccess {
                                object: Box::new(left),
                                index: Box::new(index),
                            },
                            span: grammar::join(left.span, ts[q].1),
                        },
                        q + 1,
                    );
                }
            },
            Err(_) => {},
        }
    }
}

proof fn primary_span_covers(ts: Tokens, p: int)
    ensures
        grammar::parse_primary(ts, p) matches Ok((e, q)) ==> covers(ts, p, e, q),
    decreases ts.len() - p, 3nat,
{
    if 0 <= p < ts.len() && grammar::atom_of(ts[p].0) is None && ts[p].0 is LParen {
        expression_span_covers(ts, p + 1);
    }
}

// ---------------------------------------------------------------------------
// The environment
// ---------------------------------------------------------------------------

/// Evaluation keeps the environment a mapping: where no name is bound twice
/// before a node is evaluated, none is bound twice after.
pub proof fn evaluation_keeps_names_unique(e: SpannedView, w: World, depth: nat)
    requires
        unique(w.env),
    ensures
        unique(eval_spec(e, w, depth).1.env),
    decreases depth, e, 5nat,
{
    eval_unfolds(e, w, depth);
    match e.node {
        ExprView::Neg(inner) => {
            evaluation_keeps_names_unique(*inner, w, depth);
        },
        ExprView::Binary { op, left, right } => {
            evaluation_keeps_names_unique(*left, w, depth);
            let (r1, w1) = eval_spec(*left, w, depth);
            if r1 is Ok {
                evaluation_keeps_names_unique(*right, w1, depth);
            }
        },
        ExprView::Let { name, value } => {
            evaluation_keeps_names_unique(*value, w, depth);
            let (r1, w1) = eval_spec(*value, w, depth);
            if r1 is Ok {
                bind_keeps_unique(w1.env, name, crate::values::unwrapped(r1->Ok_0));
            }
        },
        ExprView::Function { name, .. } => {
            bind_keeps_unique(w.env, name, e.node);
        },
        ExprView::Block(stmts) => {
            block_keeps_names_unique(stmts, 0, w, names(w.env), depth);
        },
        ExprView::If { condition, then_branch, else_branch } => {
            evaluation_keeps_names_unique(*condition, w, depth);
            let (r1, w1) = eval_spec(*condition, w, depth);
            if r1 is Ok {
                evaluation_keeps_names_unique(*then_branch, w1, depth);
                if else_branch is Some {
                    evaluation_keeps_names_unique(*else_branch->0, w1, depth);
                }
            }
        },
        ExprView::InfiniteLoop { body } => {
            loop_keeps_names_unique(*body, w, depth);
        },
        ExprView::ForLoop { iterator_name, iterator_range, body } => {
            evaluation_keeps_names_unique(*iterator_range, w, depth);
            let (r1, w1) = eval_spec(*iterator_range, w, depth);
            if r1 is Ok {
                match crate::values::unwrapped(r1->Ok_0) {
                    ExprView::Range { start, end, inclusive } => {
                        if depth > 0 {
                            evaluation_keeps_names_unique(*start, w1, (depth - 1) as nat);
                            let (r2, w2) = eval_spec(*start, w1, (depth - 1) as nat);
                            if r2 is Ok {
                                evaluation_keeps_names_unique(*end, w2, (depth - 1) as nat);
                                let (r3, w3) = eval_spec(*end, w2, (depth - 1) as nat);
                                if r3 is Ok {
                                    match (
                                        crate::values::unwrapped(r2->Ok_0),
                                        crate::values::unwrapped(r3->Ok_0),
                                    ) {
                                        (ExprView::Int(from), ExprView::Int(to)) => {
                                            iterations_keep_names_unique(
                                                iterator_name,
                                                from as int,
                                                if inclusive {
                                                    to + 1
                                                } else {
                                                    to as int
                                                },
                                                *body,
                                                w3,
                                                depth,
                                            );
                                        },
                                        _ => {},
                                    }
                                }
                            }
                        }
                    },
                    _ => {},
                }
            }
        },
        ExprView::Return(value) => {
            evaluation_keeps_names_unique(*value, w, depth);
        },
        ExprView::Array(items) => {
            list_keeps_names_unique(items, 0, Seq::empty(), w, depth);
        },
        ExprView::PropertyAccess { object, property } => {
            evaluation_keeps_names_unique(*object, w, depth);
        },
        ExprView::IndexAccess { object, index } => {
            evaluation_keeps_names_unique(*object, w, depth);
            let (r1, w1) = eval_spec(*object, w, depth);
            if r1 is Ok {
                evaluation_keeps_names_unique(*index, w1, depth);
            }
        },
        ExprView::Call { callee, args } => {
            list_keeps_names_unique(args, 0, Seq::empty(), w, depth);
            let (r1, w1) = crate::semantics::eval_list(args, 0, Seq::empty(), w, depth);
            if r1 is Ok {
                let actuals = r1->Ok_0;
                if !(callee.node is Identifier) {
                    evaluation_keeps_names_unique(*callee, w1, depth);
                }
                let (r2, w2) = crate::semantics::eval_callee(*callee, w1, depth);
                if r2 is Ok {
                    match crate::values::unwrapped(r2->Ok_0) {
                        ExprView::InternalFunction { name, args: formal, func } => {
                            native_call_keeps_names_unique(
                                *callee,
                                formal,
                                func,
                                actuals,
                                e.span,
                                w2,
                                depth,
                            );
                        },
                        _ => {},
                    }
                }
            }
        },
        ExprView::Import { name, import_as } => {
            import_keeps_names_unique(e, name, import_as, e.span, w, depth);
        },
        _ => {},
    }
}

proof fn block_keeps_names_unique(
    stmts: Seq<SpannedView>,
    i: int,
    w: World,
    keep: Seq<Seq<char>>,
    depth: nat,
)
    requires
        unique(w.env),
    ensures
        unique(eval_block(stmts, i, w, keep, depth).1.env),
    decreases depth, stmts, stmts.len() - i + 6,
{
    if i < 0 || i >= stmts.len() {
        crate::environment::prune_keeps_unique(w.env, keep);
    } else {
        evaluation_keeps_names_unique(stmts[i], w, depth);
        let (r1, w1) = eval_spec(stmts[i], w, depth);
        match r1 {
            Ok(FlowView::Continue(_)) => {
                block_keeps_names_unique(stmts, i + 1, w1, keep, depth);
            },
            _ => {},
        }
    }
}

proof fn list_keeps_names_unique(
    items: Seq<SpannedView>,
    i: int,
    done: Seq<SpannedView>,
    w: World,
    depth: nat,
)
    requires
        unique(w.env),
    ensures
        unique(crate::semantics::eval_list(items, i, done, w, depth).1.env),
    decreases depth, items, items.len() - i + 6,
{
    if 0 <= i < items.len() {
        evaluation_keeps_names_unique(items[i], w, depth);
        let (r1, w1) = eval_spec(items[i], w, depth);
        match r1 {
            Ok(flow) => {
                list_keeps_names_unique(
                    items,
                    i + 1,
                    done.push(
                        SpannedView { node: crate::values::unwrapped(flow), span: items[i].span },
                    ),
                    w1,
                    depth,
                );
            },
            Err(_) => {},
        }
    }
}

proof fn loop_keeps_names_unique(body: SpannedView, w: World, depth: nat)
    requires
        unique(w.env),
    ensures
        unique(eval_loop(body, w, depth).1.env),
    decreases depth, body, w.session.steps + 6,
{
    if w.session.steps > 0 {
        evaluation_keeps_names_unique(body, stepped(w), depth);
        let (r1, w1) = eval_spec(body, stepped(w), depth);
        match r1 {
            Ok(FlowView::Continue(_)) | Ok(FlowView::Skip) => {
                if 0 <= w1.session.steps < w.session.steps {
                    loop_keeps_names_unique(body, w1, depth);
                }
            },
            _ => {},
        }
    }
}

proof fn iterations_keep_names_unique(
    name: Seq<char>,
    i: int,
    end: int,
    body: SpannedView,
    w: World,
    depth: nat,
)
    requires
        unique(w.env),
    ensures
        unique(eval_iterations(name, i, end, body, w, depth).1.env),
    decreases depth, body, end - i + 6,
{
    if i < end {
        bind_keeps_unique(w.env, name, ExprView::Int(i as i64));
        let w0 = World { env: bind(w.env, name, ExprView::Int(i as i64)), session: w.session };
        evaluation_keeps_names_unique(body, w0, depth);
        let (r1, w1) = eval_spec(body, w0, depth);
        match r1 {
            Ok(FlowView::Continue(_)) | Ok(FlowView::Skip) => {
                iterations_keep_names_unique(name, i + 1, end, body, w1, depth);
            },
            _ => {},
        }
    }
}

proof fn native_result_keeps_names_unique(
    func: Native,
    actuals: Seq<SpannedView>,
    callee: SpannedView,
    span: Span,
    w: World,
)
    requires
        unique(w.env),
    ensures
        unique(crate::semantics::native_result(func, actuals, callee, span, w).1.env),
{
    if !(func is Print) {
        match crate::natives::pure_call(func, actuals) {
            Some(Ok(response)) => {
                match (response.replace_self, crate::semantics::receiver_name(callee)) {
                    (Some(replacement), Some(name)) => {
                        bind_keeps_unique(w.env, name, replacement);
                    },
                    _ => {},
                }
            },
            _ => {},
        }
    }
}

proof fn native_call_keeps_names_unique(
    callee: SpannedView,
    formal: Seq<Seq<char>>,
    func: Native,
    actuals: Seq<SpannedView>,
    span: Span,
    w: World,
    depth: nat,
)
    requires
        unique(w.env),
    ensures
        unique(crate::semantics::call_native(callee, formal, func, actuals, span, w, depth).1.env),
    decreases depth, callee, 6nat,
{
    match crate::semantics::receiver(callee, formal) {
        Some(object) => {
            evaluation_keeps_names_unique(object, w, depth);
            let (r1, w1) = eval_spec(object, w, depth);
            match r1 {
                Ok(flow) => {
                    native_result_keeps_names_unique(
                        func,
                        seq![
                            SpannedView { node: crate::values::unwrapped(flow), span: object.span },
                        ] + actuals,
                        callee,
                        span,
                        w1,
                    );
                },
                Err(_) => {},
            }
        },
        None => {
            native_result_keeps_names_unique(func, actuals, callee, span, w);
        },
    }
}

proof fn imported_keeps_names_unique(env: Bindings, alias: Seq<char>, symbols: Bindings)
    requires
        unique(env),
    ensures
        unique(crate::semantics::imported(env, alias, symbols)),
{
    if alias == "*"@ {
        crate::environment::merged_is_unique(env, symbols, symbols.len() as int);
    } else {
        bind_keeps_unique(env, alias, ExprView::Module { symbols });
    }
}

proof fn import_keeps_names_unique(
    e: SpannedView,
    name: Seq<char>,
    import_as: Option<Seq<char>>,
    span: Span,
    w: World,
    depth: nat,
)
    requires
        unique(w.env),
    ensures
        unique(crate::semantics::eval_import(e, name, import_as, span, w, depth).1.env),
{
    let alias = crate::semantics::import_alias(name, import_as);
    if crate::text::ends_with(name, ".modu"@) {
        unit_keeps_names_unique(e, crate::semantics::source_path(name, w), None, alias, span, w, depth);
    } else {
        match crate::libraries::package(name, w.session.sandbox, w.session.platform) {
            Some(symbols) => {
                imported_keeps_names_unique(w.env, alias, symbols);
            },
            None => {
                let path = crate::semantics::package_path(name, w);
                let (answer, session) = asked(
                    w.session,
                    crate::session::RequestView::FileExists { path },
                    span,
                );
                let w1 = World { env: w.env, session };
                unit_keeps_names_unique(e, path, Some(name), alias, span, w1, depth);
            },
        }
    }
}

proof fn unit_keeps_names_unique(
    e: SpannedView,
    path: Seq<char>,
    package_name: Option<Seq<char>>,
    alias: Seq<char>,
    span: Span,
    w: World,
    depth: nat,
)
    requires
        unique(w.env),
    ensures
        unique(crate::semantics::load_unit(e, path, package_name, alias, span, w, depth).1.env),
{
    let (answer, session) = asked(w.session, crate::session::RequestView::ReadFile { path }, span);
    match answer {
        Ok(crate::session::AnswerView::Value(ExprView::String(source))) => {
            if depth > 0 {
                match crate::semantics::statements(source) {
                    Ok(stmts) => {
                        let seeded = crate::semantics::unit_env(path, package_name);
                        let (r, after) = crate::semantics::run(
                            stmts,
                            0,
                            World { env: seeded, session },
                            (depth - 1) as nat,
                        );
                        if r is Ok {
                            imported_keeps_names_unique(
                                w.env,
                                alias,
                                crate::environment::beyond(after.env, seeded),
                            );
                        }
                    },
                    Err(_) => {},
                }
            }
        },
        _ => {},
    }
}

/// A run keeps the environment a mapping: where no name is bound twice
/// before the statements run, none is bound twice after.
pub proof fn run_keeps_names_unique(stmts: Seq<SpannedView>, i: int, w: World, depth: nat)
    requires
        unique(w.env),
    ensures
        unique(crate::semantics::run(stmts, i, w, depth).1.env),
    decreases stmts.len() - i,
{
    if 0 <= i < stmts.len() {
        if crate::semantics::idle(stmts[i], w.env) {
            run_keeps_names_unique(stmts, i + 1, w, depth);
        } else {
            evaluation_keeps_names_unique(stmts[i], w, depth);
            let (r, w1) = eval_spec(stmts[i], w, depth);
            if crate::semantics::statement_result(r, stmts[i].span) is Ok {
                run_keeps_names_unique(stmts, i + 1, w1, depth);
            }
        }
    }
}

} // verus!
