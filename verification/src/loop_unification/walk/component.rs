//! The walk over the pieces of interpolated strings.

use vstd::prelude::*;
use crate::assigner::{Assigner, PLACEHOLDER};
use crate::global::Table;
use crate::hir::{Expr, Lit, StringComponent};
use crate::loop_unification::model;
use crate::loop_unification::model::{fresh_component, lowerable_component};
use crate::loop_unification::walk::expr::lower_expr;

verus! {

/// Lowers every loop in a piece of an interpolated string.
pub fn lower_component(core: &Table, assigner: &mut Assigner, component: StringComponent) -> (r:
    StringComponent)
    requires
        lowerable_component(component@, core@),
        old(assigner)@ + fresh_component(component@) <= PLACEHOLDER,
    ensures
        r@ == model::lower_component(component@, old(assigner)@, core@),
        final(assigner)@ == old(assigner)@ + fresh_component(component@),
    decreases component, 0nat,
{
    match component {
        StringComponent::Expr(e) => StringComponent::Expr(lower_expr(core, assigner, e)),
        StringComponent::Lit(text) => StringComponent::Lit(text),
    }
}

} // verus!
