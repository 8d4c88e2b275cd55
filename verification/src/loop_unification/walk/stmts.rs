//! The walk over lists of statements.

use vstd::prelude::*;
use crate::assigner::{Assigner, PLACEHOLDER};
use crate::global::Table;
use crate::hir::{stmts_view, Stmt};
use crate::loop_unification::model;
use crate::loop_unification::model::{
    fresh_stmt, fresh_stmts, lemma_total_before, lowerable_stmt, lowerable_stmts, stmt_counts,
    total, total_before,
};
use crate::loop_unification::walk::stmt::lower_stmt;

verus! {

/// Lowers every loop in a list of statements, from the first to the last.
pub fn lower_stmts(core: &Table, assigner: &mut Assigner, stmts: Vec<Stmt>) -> (r: Vec<Stmt>)
    requires
        lowerable_stmts(stmts_view(stmts@), core@),
        old(assigner)@ + fresh_stmts(stmts_view(stmts@)) <= PLACEHOLDER,
    ensures
        stmts_view(r@) == model::lower_stmts(stmts_view(stmts@), old(assigner)@, core@),
        final(assigner)@ == old(assigner)@ + fresh_stmts(stmts_view(stmts@)),
    decreases stmts, 0nat,
{
    let ghost start = assigner@;
    let ghost orig = stmts;
    let ghost views = stmts_view(stmts@);
    let ghost counts = stmt_counts(views);
    let mut out: Vec<Stmt> = Vec::new();
    proof {
        lemma_total_before(counts, 0);
    }
    for stmt in iter: stmts
        invariant
            iter.seq() == orig@,
            stmts == orig,
            views == stmts_view(orig@),
            counts == stmt_counts(views),
            lowerable_stmts(views, core@),
            start + total(counts) <= PLACEHOLDER,
            out.len() == iter.index(),
            assigner@ == start + total_before(counts, iter.index() as int),
            forall|j: int|
                0 <= j < out.len() ==> (#[trigger] out[j])@ == model::lower_stmt(
                    views[j],
                    start + total_before(counts, j),
                    core@,
                ),
    {
        let ghost i = iter.index() as int;
        proof {
            lemma_total_before(counts, i);
            lemma_total_before(counts, i + 1);
            assert(views[i] == orig[i]@);
            assert(lowerable_stmt(views[i], core@));
            assert(counts[i] == fresh_stmt(views[i]));
            assert(decreases_to!(orig => orig[i]));
        }
        let lowered = lower_stmt(core, assigner, stmt);
        out.push(lowered);
    }
    proof {
        lemma_total_before(counts, counts.len() as int);
        assert(stmts_view(out@) =~= model::lower_stmts(views, start, core@));
    }
    out
}

} // verus!
