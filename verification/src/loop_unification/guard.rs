//! What the tests of the lowered loops mean.
//!
//! The pass builds the test of a loop over a range without knowing which way
//! the range goes. Here that test is given its meaning, and the values that
//! the loop visits are told from it: a range that goes up is visited from
//! its start to its end, a range that goes down likewise, and a range whose
//! step is zero, or that has passed its end before it starts, is not visited
//! at all. What replaces a `repeat` loop runs the body, then the fixup only
//! if the condition did not hold, and stops without it when it did.

use vstd::prelude::*;
use crate::assigner::NodeId;
use crate::common::IdentTemplateView;
use crate::hir::{BinOp, ExprKindView, ExprView, Lit, Res, UnOp};
use crate::loop_unification::expansion::{bool_ty, new_bin_op, new_expr, range_guard};
use crate::span::Span;

verus! {

/// A value of one of the two types that the tests of the lowered loops
/// compute with.
pub enum Value {
    Int(int),
    Bool(bool),
}

/// The value of an expression made of literals, locals, comparisons and the
/// two logical connectives, where every local has the integer that `env`
/// gives; `None` for every other expression.
pub open spec fn eval(e: ExprView, env: Map<NodeId, int>) -> Option<Value>
    decreases e,
{
    match e.kind {
        ExprKindView::Lit(Lit::Int(n)) => Some(Value::Int(n as int)),
        ExprKindView::Lit(Lit::Bool(b)) => Some(Value::Bool(b)),
        ExprKindView::Var(Res::Local(id), _) => if env.dom().contains(id) {
            Some(Value::Int(env[id]))
        } else {
            None
        },
        ExprKindView::BinOp(op, lhs, rhs) => match (eval(*lhs, env), eval(*rhs, env)) {
            (Some(Value::Int(a)), Some(Value::Int(b))) => match op {
                BinOp::Lt => Some(Value::Bool(a < b)),
                BinOp::Lte => Some(Value::Bool(a <= b)),
                BinOp::Gt => Some(Value::Bool(a > b)),
                BinOp::Gte => Some(Value::Bool(a >= b)),
                _ => None,
            },
            (Some(Value::Bool(a)), Some(Value::Bool(b))) => match op {
                BinOp::AndL => Some(Value::Bool(a && b)),
                BinOp::OrL => Some(Value::Bool(a || b)),
                _ => None,
            },
            _ => None,
        },
        ExprKindView::UnOp(UnOp::NotL, operand) => match eval(*operand, env) {
            Some(Value::Bool(b)) => Some(Value::Bool(!b)),
            _ => None,
        },
        _ => None,
    }
}

/// Whether a loop over a range goes on: the step is positive and the index
/// has not passed the end, or the step is negative and the index has not
/// gone below it.
pub open spec fn range_goes_on(index: int, step: int, end: int) -> bool {
    (step > 0 && index <= end) || (step < 0 && index >= end)
}

/// How far the index of a loop over a range is from the point where the
/// loop stops.
pub open spec fn range_distance(index: int, step: int, end: int) -> nat {
    if step > 0 && index <= end {
        (end - index + 1) as nat
    } else if step < 0 && index >= end {
        (index - end + 1) as nat
    } else {
        0
    }
}

/// The values that the index of a lowered loop over a range takes, one for
/// every round, in order: the loop starts at `start`, goes on while
/// `range_goes_on`, and moves by `step` after every round.
pub open spec fn range_visits(start: int, step: int, end: int) -> Seq<int>
    decreases range_distance(start, step, end),
{
    if range_goes_on(start, step, end) {
        seq![start] + range_visits(start + step, step, end)
    } else {
        Seq::empty()
    }
}

/// The values that the index of a lowered loop over an array of `len` items
/// takes, one for every round, in order: the loop starts at `index`, goes on
/// while the index is below `len`, and moves by one after every round.
pub open spec fn array_visits(index: int, len: int) -> Seq<int>
    decreases len - index,
{
    if index < len {
        seq![index] + array_visits(index + 1, len)
    } else {
        Seq::empty()
    }
}

/// The test that the pass builds for a loop over a range means
/// `range_goes_on`, of the values of the index, the step and the end.
pub proof fn lemma_range_guard_means(
    index: IdentTemplateView,
    step: IdentTemplateView,
    end: IdentTemplateView,
    span: Span,
    env: Map<NodeId, int>,
)
    requires
        env.dom().contains(index.id),
        env.dom().contains(step.id),
        env.dom().contains(end.id),
    ensures
        eval(range_guard(index, step, end, span), env) == Some(
            Value::Bool(range_goes_on(env[index.id], env[step.id], env[end.id])),
        ),
{
    let guard = range_guard(index, step, end, span);
    let rising = *guard.kind->BinOp_1;
    let falling = *guard.kind->BinOp_2;
    let rising_step = *rising.kind->BinOp_1;
    let rising_bound = *rising.kind->BinOp_2;
    let falling_step = *falling.kind->BinOp_1;
    let falling_bound = *falling.kind->BinOp_2;
    assert(eval(index.local_ref(), env) == Some(Value::Int(env[index.id])));
    assert(eval(step.local_ref(), env) == Some(Value::Int(env[step.id])));
    assert(eval(end.local_ref(), env) == Some(Value::Int(env[end.id])));
    assert(eval(*rising_step.kind->BinOp_2, env) == Some(Value::Int(0)));
    assert(eval(*falling_step.kind->BinOp_2, env) == Some(Value::Int(0)));
    assert(eval(rising_step, env) == Some(Value::Bool(env[step.id] > 0)));
    assert(eval(rising_bound, env) == Some(Value::Bool(env[index.id] <= env[end.id])));
    assert(eval(falling_step, env) == Some(Value::Bool(env[step.id] < 0)));
    assert(eval(falling_bound, env) == Some(Value::Bool(env[index.id] >= env[end.id])));
    assert(eval(rising, env) == Some(
        Value::Bool(env[step.id] > 0 && env[index.id] <= env[end.id]),
    ));
    assert(eval(falling, env) == Some(
        Value::Bool(env[step.id] < 0 && env[index.id] >= env[end.id]),
    ));
}

/// The test that the pass builds for a loop over an array means that the
/// index is below the length.
pub proof fn lemma_array_guard_means(
    index: IdentTemplateView,
    len: IdentTemplateView,
    span: Span,
    env: Map<NodeId, int>,
)
    requires
        env.dom().contains(index.id),
        env.dom().contains(len.id),
    ensures
        eval(new_bin_op(BinOp::Lt, index.local_ref(), len.local_ref(), bool_ty(), span), env)
            == Some(Value::Bool(env[index.id] < env[len.id])),
{
    assert(eval(index.local_ref(), env) == Some(Value::Int(env[index.id])));
    assert(eval(len.local_ref(), env) == Some(Value::Int(env[len.id])));
}

/// A loop over a range whose step is zero is not run once.
pub proof fn lemma_step_zero_visits_nothing(start: int, end: int)
    ensures
        range_visits(start, 0, end) == Seq::<int>::empty(),
{
}

/// A loop over a range that has passed its end before it starts is not run
/// once.
pub proof fn lemma_past_its_end_visits_nothing(start: int, step: int, end: int)
    requires
        (step > 0 && start > end) || (step < 0 && start < end),
    ensures
        range_visits(start, step, end) == Seq::<int>::empty(),
{
}

/// A loop over a range visits the start, then every value a whole number of
/// steps from it, for as long as the end is not passed; the end is visited
/// if it is among them.
pub proof fn lemma_range_visits(start: int, step: int, end: int)
    requires
        range_goes_on(start, step, end),
    ensures
        range_visits(start, step, end).len() >= 1,
        forall|k: int|
            0 <= k < range_visits(start, step, end).len() ==> #[trigger] range_visits(
                start,
                step,
                end,
            )[k] == start + k * step && range_goes_on(start + k * step, step, end),
        !range_goes_on(start + range_visits(start, step, end).len() * step, step, end),
    decreases range_distance(start, step, end),
{
    let visits = range_visits(start, step, end);
    let rest = range_visits(start + step, step, end);
    assert(visits =~= seq![start] + rest);
    if range_goes_on(start + step, step, end) {
        lemma_range_visits(start + step, step, end);
        assert forall|k: int| 0 <= k < visits.len() implies #[trigger] visits[k] == start + k * step
            && range_goes_on(start + k * step, step, end) by {
            if k > 0 {
                assert(visits[k] == rest[k - 1]);
                assert(start + step + (k - 1) * step == start + k * step) by (nonlinear_arith);
            } else {
                assert(start + 0 * step == start);
            }
        }
        assert(start + step + rest.len() * step == start + visits.len() * step) by (nonlinear_arith)
            requires
                visits.len() == rest.len() + 1,
        ;
    } else {
        assert(rest =~= Seq::<int>::empty());
        assert(start + 0 * step == start);
        assert(start + 1 * step == start + step);
    }
}

/// A loop over a range that goes up by one visits every integer from its
/// start to its end, both included, in order.
pub proof fn lemma_forward_range_visits(start: int, end: int)
    requires
        start <= end,
    ensures
        range_visits(start, 1, end) == Seq::new((end - start + 1) as nat, |k: int| start + k),
    decreases end - start,
{
    let rest = range_visits(start + 1, 1, end);
    if start < end {
        lemma_forward_range_visits(start + 1, end);
    } else {
        assert(rest =~= Seq::<int>::empty());
    }
    assert(range_visits(start, 1, end) =~= Seq::new(
        (end - start + 1) as nat,
        |k: int| start + k,
    ));
}

/// A loop over a range that goes down by one visits every integer from its
/// start down to its end, both included, in order.
pub proof fn lemma_reverse_range_visits(start: int, end: int)
    requires
        start >= end,
    ensures
        range_visits(start, -1, end) == Seq::new((start - end + 1) as nat, |k: int| start - k),
    decreases start - end,
{
    let rest = range_visits(start - 1, -1, end);
    if start > end {
        lemma_reverse_range_visits(start - 1, end);
    } else {
        assert(rest =~= Seq::<int>::empty());
    }
    assert(range_visits(start, -1, end) =~= Seq::new(
        (start - end + 1) as nat,
        |k: int| start - k,
    ));
}

/// A loop over an array visits the indices from zero up to the array's
/// length, in order, and none where the array is empty.
pub proof fn lemma_array_visits(index: int, len: int)
    requires
        0 <= index <= len,
    ensures
        array_visits(index, len) == Seq::new((len - index) as nat, |k: int| index + k),
    decreases len - index,
{
    if index < len {
        lemma_array_visits(index + 1, len);
    }
    assert(array_visits(index, len) =~= Seq::new((len - index) as nat, |k: int| index + k));
}

/// What a round of a lowered `repeat` loop runs.
pub enum Step {
    /// The loop's body.
    Body,
    /// The loop's fixup.
    Fixup,
}

/// What a lowered `repeat` loop runs, in order, where `outcomes` tells the
/// value of the condition after every run of the body: the flag starts out
/// true; every round runs the body and sets the flag to the negated
/// condition, and runs the fixup if there is one and the flag still holds.
/// The loop stops with the first round after which the flag does not hold.
pub open spec fn repeat_steps(outcomes: Seq<bool>, with_fixup: bool) -> Seq<Step>
    decreases outcomes.len(),
{
    if outcomes.len() == 0 {
        Seq::empty()
    } else if outcomes[0] {
        seq![Step::Body]
    } else if with_fixup {
        seq![Step::Body, Step::Fixup] + repeat_steps(outcomes.skip(1), with_fixup)
    } else {
        seq![Step::Body] + repeat_steps(outcomes.skip(1), with_fixup)
    }
}

/// The value that the flag of a lowered `repeat` loop gets after the body:
/// the negation of the condition.
pub proof fn lemma_flag_is_negated_condition(
    until: ExprView,
    span: Span,
    env: Map<NodeId, int>,
    holds: bool,
)
    requires
        eval(until, env) == Some(Value::Bool(holds)),
    ensures
        eval(new_expr(span, bool_ty(), ExprKindView::UnOp(UnOp::NotL, Box::new(until))), env)
            == Some(Value::Bool(!holds)),
{
}

/// A `repeat` loop whose condition holds after the first run of the body
/// runs the body once, and the fixup never.
pub proof fn lemma_repeat_until_true(outcomes: Seq<bool>, with_fixup: bool)
    requires
        outcomes.len() > 0,
        outcomes[0],
    ensures
        repeat_steps(outcomes, with_fixup) == seq![Step::Body],
{
}

/// A `repeat` loop with a fixup whose condition fails `failed` times and
/// then holds runs the body `failed + 1` times, and the fixup after every
/// run of the body but the last.
pub proof fn lemma_repeat_with_fixup(outcomes: Seq<bool>, failed: nat)
    requires
        outcomes.len() > failed,
        forall|k: int| 0 <= k < failed ==> !outcomes[k],
        outcomes[failed as int],
    ensures
        repeat_steps(outcomes, true).len() == 2 * failed + 1,
        forall|k: int| 0 <= k <= failed ==> #[trigger] repeat_steps(outcomes, true)[2 * k] is Body,
        forall|k: int|
            0 <= k < failed ==> #[trigger] repeat_steps(outcomes, true)[2 * k + 1] is Fixup,
    decreases failed,
{
    let steps = repeat_steps(outcomes, true);
    if failed > 0 {
        let rest = repeat_steps(outcomes.skip(1), true);
        assert(!outcomes[0]);
        assert forall|k: int| 0 <= k < failed - 1 implies !outcomes.skip(1)[k] by {
            assert(!outcomes[k + 1]);
        }
        lemma_repeat_with_fixup(outcomes.skip(1), (failed - 1) as nat);
        assert(steps =~= seq![Step::Body, Step::Fixup] + rest);
        assert forall|k: int| 0 <= k <= failed implies #[trigger] steps[2 * k] is Body by {
            if k > 0 {
                assert(steps[2 * k] == rest[2 * (k - 1)]);
            }
        }
        assert forall|k: int| 0 <= k < failed implies #[trigger] steps[2 * k + 1] is Fixup by {
            if k > 0 {
                assert(steps[2 * k + 1] == rest[2 * (k - 1) + 1]);
            }
        }
    }
}

/// A `repeat` loop without a fixup whose condition fails `failed` times and
/// then holds runs the body `failed + 1` times and nothing else.
pub proof fn lemma_repeat_without_fixup(outcomes: Seq<bool>, failed: nat)
    requires
        outcomes.len() > failed,
        forall|k: int| 0 <= k < failed ==> !outcomes[k],
        outcomes[failed as int],
    ensures
        repeat_steps(outcomes, false).len() == failed + 1,
        forall|k: int| 0 <= k <= failed ==> #[trigger] repeat_steps(outcomes, false)[k] is Body,
    decreases failed,
{
    let steps = repeat_steps(outcomes, false);
    if failed > 0 {
        let rest = repeat_steps(outcomes.skip(1), false);
        assert(!outcomes[0]);
        assert forall|k: int| 0 <= k < failed - 1 implies !outcomes.skip(1)[k] by {
            assert(!outcomes[k + 1]);
        }
        lemma_repeat_without_fixup(outcomes.skip(1), (failed - 1) as nat);
        assert(steps =~= seq![Step::Body] + rest);
        assert forall|k: int| 0 <= k <= failed implies #[trigger] steps[k] is Body by {
            if k > 0 {
                assert(steps[k] == rest[k - 1]);
            }
        }
    }
}

} // verus!
