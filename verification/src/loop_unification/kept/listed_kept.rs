//! After the pass an expression that holds a list holds every expression that is no
//! loop itself as often as before.

use vstd::prelude::*;
use crate::global::TermView;
use crate::hir::{ExprKindView, ExprView};
use crate::loop_unification::model::{lower_expr, lowerable_expr};
use crate::assigner::{NodeId, PLACEHOLDER};
use crate::loop_unification::occurrences::occ_expr;
use crate::loop_unification::occurrences::kept_expr;
use crate::loop_unification::kept::exprs_kept::lemma_exprs_kept;
use crate::loop_unification::kept::components_kept::lemma_components_kept;

verus! {

/// After the pass an expression that holds a list holds every expression that is no
/// loop itself as often as before.
pub proof fn lemma_listed_kept(id: NodeId, e: ExprView, next: nat, core: Seq<TermView>)
    requires
        id != NodeId(PLACEHOLDER),
        lowerable_expr(e, core),
        e.kind is Array || e.kind is Tuple || e.kind is String,
    ensures
        occ_expr(id, lower_expr(e, next, core)) == kept_expr(id, e),
    decreases e, 0nat,
{
    reveal_with_fuel(lower_expr, 1);
    reveal_with_fuel(lowerable_expr, 1);
    match e.kind {
        ExprKindView::Array(items) => {
            lemma_exprs_kept(id, items, next, core);
        },
        ExprKindView::Tuple(items) => {
            lemma_exprs_kept(id, items, next, core);
        },
        ExprKindView::String(components) => {
            lemma_components_kept(id, components, next, core);
        },
        _ => {},
    }
}

} // verus!
