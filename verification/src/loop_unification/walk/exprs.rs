//! The walk over lists of expressions.

use vstd::prelude::*;
use crate::assigner::{Assigner, PLACEHOLDER};
use crate::global::Table;
use crate::hir::{exprs_view, Expr};
use crate::loop_unification::model;
use crate::loop_unification::model::{
    expr_counts, fresh_expr, fresh_exprs, lemma_total_before, lowerable_expr, lowerable_exprs,
    total, total_before,
};
use crate::loop_unification::walk::expr::lower_expr;

verus! {

/// Lowers every loop in a list of expressions, from the first to the last.
pub fn lower_exprs(core: &Table, assigner: &mut Assigner, exprs: Vec<Expr>) -> (r: Vec<Expr>)
    requires
        lowerable_exprs(exprs_view(exprs@), core@),
        old(assigner)@ + fresh_exprs(exprs_view(exprs@)) <= PLACEHOLDER,
    ensures
        exprs_view(r@) == model::lower_exprs(exprs_view(exprs@), old(assigner)@, core@),
        final(assigner)@ == old(assigner)@ + fresh_exprs(exprs_view(exprs@)),
    decreases exprs, 0nat,
{
    let ghost start = assigner@;
    let ghost orig = exprs;
    let ghost views = exprs_view(exprs@);
    let ghost counts = expr_counts(views);
    let mut out: Vec<Expr> = Vec::new();
    proof {
        lemma_total_before(counts, 0);
    }
    for e in iter: exprs
        invariant
            iter.seq() == orig@,
            exprs == orig,
            views == exprs_view(orig@),
            counts == expr_counts(views),
            lowerable_exprs(views, core@),
            start + total(counts) <= PLACEHOLDER,
            out.len() == iter.index(),
            assigner@ == start + total_before(counts, iter.index() as int),
            forall|j: int|
                0 <= j < out.len() ==> (#[trigger] out[j])@ == model::lower_expr(
                    views[j],
                    start + total_before(counts, j),
                    core@,
                ),
    {
        let ghost i = iter.index() as int;
        proof {
            lemma_total_before(counts, i);
            lemma_total_before(counts, i + 1);
            assert(views[i] == orig[i]@);
            assert(lowerable_expr(views[i], core@));
            assert(counts[i] == fresh_expr(views[i]));
            assert(decreases_to!(orig => orig[i]));
        }
        let lowered = lower_expr(core, assigner, e);
        out.push(lowered);
    }
    proof {
        lemma_total_before(counts, counts.len() as int);
        assert(exprs_view(out@) =~= model::lower_exprs(views, start, core@));
    }
    out
}

} // verus!
