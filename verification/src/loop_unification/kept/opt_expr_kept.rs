//! After the pass an expression that may be absent holds every expression that is no
//! loop itself as often as before.

use vstd::prelude::*;
use crate::global::TermView;
use crate::hir::ExprView;
use crate::loop_unification::model::{lower_opt_expr, lowerable_opt_expr};
use crate::assigner::{NodeId, PLACEHOLDER};
use crate::loop_unification::occurrences::occ_opt_expr;
use crate::loop_unification::occurrences::kept_opt_expr;
use crate::loop_unification::kept::expr_kept::lemma_expr_kept;

verus! {

/// After the pass an expression that may be absent holds every expression that is no
/// loop itself as often as before.
pub proof fn lemma_opt_expr_kept(id: NodeId, e: Option<Box<ExprView>>, next: nat, core: Seq<TermView>)
    requires
        id != NodeId(PLACEHOLDER),
        lowerable_opt_expr(e, core),
    ensures
        occ_opt_expr(id, lower_opt_expr(e, next, core)) == kept_opt_expr(id, e),
    decreases e, 0nat,
{
    match e {
        Some(e) => lemma_expr_kept(id, *e, next, core),
        None => {},
    }
}

} // verus!
