//! Surveys a list of statements.

use vstd::prelude::*;
use crate::global::Table;
use crate::hir::{stmts_view, Stmt};
use crate::loop_unification::model::{
    fresh_stmt, fresh_stmts, lemma_total_before, lowerable_stmt, lowerable_stmts, stmt_counts,
    total_before,
};
use crate::loop_unification::survey::{capped, Survey};
use crate::loop_unification::survey::stmt::survey_stmt;

verus! {

/// Surveys a list of statements.
pub fn survey_stmts(core: &Table, stmts: &Vec<Stmt>) -> (r: Survey)
    ensures
        r.lowerable == lowerable_stmts(stmts_view(stmts@), core@),
        r.fresh == capped(fresh_stmts(stmts_view(stmts@))),
    decreases stmts, 0nat,
{
    let ghost views = stmts_view(stmts@);
    let ghost counts = stmt_counts(views);
    let mut all = Survey::nothing();
    let mut i: usize = 0;
    proof {
        lemma_total_before(counts, 0);
    }
    while i < stmts.len()
        invariant
            i <= stmts.len(),
            views == stmts_view(stmts@),
            counts == stmt_counts(views),
            all.lowerable == (forall|j: int| 0 <= j < i ==> lowerable_stmt(#[trigger] views[j], core@)),
            all.fresh == capped(total_before(counts, i as int)),
        decreases stmts.len() - i,
    {
        proof {
            lemma_total_before(counts, i as int);
            assert(views[i as int] == stmts[i as int]@);
            assert(counts[i as int] == fresh_stmt(views[i as int]));
        }
        let one = survey_stmt(core, &stmts[i]);
        all = all.and(one);
        i += 1;
    }
    proof {
        lemma_total_before(counts, counts.len() as int);
    }
    all
}

} // verus!
