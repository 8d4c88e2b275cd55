//! After the pass a specialization that may be absent holds no `for` and no
//! `repeat` loop.

use vstd::prelude::*;
use crate::global::TermView;
use crate::hir::SpecDeclView;
use crate::loop_unification::model::{lower_opt_spec, lowerable_opt_spec};
use crate::loop_unification::primitive::sugar_free_opt_spec;

use crate::loop_unification::laws::lowered_spec_is_free::lemma_lowered_spec_is_free;

verus! {

/// After the pass a specialization that may be absent holds no `for` and no
/// `repeat` loop.
pub proof fn lemma_lowered_opt_spec_is_free(
    spec: Option<SpecDeclView>,
    next: nat,
    core: Seq<TermView>,
)
    requires
        lowerable_opt_spec(spec, core),
    ensures
        sugar_free_opt_spec(lower_opt_spec(spec, next, core)),
{
    match spec {
        Some(spec) => lemma_lowered_spec_is_free(spec, next, core),
        None => {},
    }
}

} // verus!
