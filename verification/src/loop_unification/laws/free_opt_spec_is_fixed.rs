//! The pass leaves a specialization that may be absent and holds no `for`
//! and no `repeat` loop as it is.

use vstd::prelude::*;
use crate::global::TermView;
use crate::hir::SpecDeclView;
use crate::loop_unification::model::{fresh_opt_spec, lower_opt_spec, lowerable_opt_spec};
use crate::loop_unification::primitive::sugar_free_opt_spec;

use crate::loop_unification::laws::free_spec_is_fixed::lemma_free_spec_is_fixed;

verus! {

/// The pass leaves a specialization that may be absent and holds no `for`
/// and no `repeat` loop as it is.
pub proof fn lemma_free_opt_spec_is_fixed(spec: Option<SpecDeclView>, next: nat, core: Seq<TermView>)
    requires
        sugar_free_opt_spec(spec),
    ensures
        lowerable_opt_spec(spec, core),
        fresh_opt_spec(spec) == 0,
        lower_opt_spec(spec, next, core) == spec,
{
    match spec {
        Some(spec) => lemma_free_spec_is_fixed(spec, next, core),
        None => {},
    }
}

} // verus!
