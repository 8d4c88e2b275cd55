//! Surveys a list of expressions.

use vstd::prelude::*;
use crate::global::Table;
use crate::hir::{exprs_view, Expr};
use crate::loop_unification::model::{
    expr_counts, fresh_expr, fresh_exprs, lemma_total_before, lowerable_expr, lowerable_exprs,
    total_before,
};
use crate::loop_unification::survey::{capped, Survey};
use crate::loop_unification::survey::expr::survey_expr;

verus! {

/// Surveys a list of expressions.
pub fn survey_exprs(core: &Table, exprs: &Vec<Expr>) -> (r: Survey)
    ensures
        r.lowerable == lowerable_exprs(exprs_view(exprs@), core@),
        r.fresh == capped(fresh_exprs(exprs_view(exprs@))),
    decreases exprs, 0nat,
{
    let ghost views = exprs_view(exprs@);
    let ghost counts = expr_counts(views);
    let mut all = Survey::nothing();
    let mut i: usize = 0;
    proof {
        lemma_total_before(counts, 0);
    }
    while i < exprs.len()
        invariant
            i <= exprs.len(),
            views == exprs_view(exprs@),
            counts == expr_counts(views),
            all.lowerable == (forall|j: int| 0 <= j < i ==> lowerable_expr(#[trigger] views[j], core@)),
            all.fresh == capped(total_before(counts, i as int)),
        decreases exprs.len() - i,
    {
        proof {
            lemma_total_before(counts, i as int);
            assert(views[i as int] == exprs[i as int]@);
            assert(counts[i as int] == fresh_expr(views[i as int]));
        }
        let one = survey_expr(core, &exprs[i]);
        all = all.and(one);
        i += 1;
    }
    proof {
        lemma_total_before(counts, counts.len() as int);
    }
    all
}

} // verus!
