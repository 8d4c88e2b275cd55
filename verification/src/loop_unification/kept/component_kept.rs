//! After the pass a piece of an interpolated string holds every expression that is no
//! loop itself as often as before.

use vstd::prelude::*;
use crate::global::TermView;
use crate::hir::StringComponentView;
use crate::loop_unification::model::{lower_component, lowerable_component};
use crate::assigner::{NodeId, PLACEHOLDER};
use crate::loop_unification::occurrences::occ_component;
use crate::loop_unification::occurrences::kept_component;
use crate::loop_unification::kept::expr_kept::lemma_expr_kept;

verus! {

/// After the pass a piece of an interpolated string holds every expression that is no
/// loop itself as often as before.
pub proof fn lemma_component_kept(
    id: NodeId,
    component: StringComponentView,
    next: nat,
    core: Seq<TermView>,
)
    requires
        id != NodeId(PLACEHOLDER),
        lowerable_component(component, core),
    ensures
        occ_component(id, lower_component(component, next, core)) == kept_component(id, component),
    decreases component, 0nat,
{
    match component {
        StringComponentView::Expr(e) => lemma_expr_kept(id, e, next, core),
        StringComponentView::Lit(_) => {},
    }
}

} // verus!
