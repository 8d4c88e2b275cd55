//! The pass leaves a callable without `for` and `repeat` loops as it is.

use vstd::prelude::*;
use crate::global::TermView;
use crate::hir::CallableDeclView;
use crate::loop_unification::model::{fresh_callable, lower_callable, lowerable_callable};
use crate::loop_unification::primitive::sugar_free_callable;

use crate::loop_unification::laws::free_spec_is_fixed::lemma_free_spec_is_fixed;
use crate::loop_unification::laws::free_opt_spec_is_fixed::lemma_free_opt_spec_is_fixed;

verus! {

/// The pass leaves a callable without `for` and `repeat` loops as it is.
pub proof fn lemma_free_callable_is_fixed(decl: CallableDeclView, next: nat, core: Seq<TermView>)
    requires
        sugar_free_callable(decl),
    ensures
        lowerable_callable(decl, core),
        fresh_callable(decl) == 0,
        lower_callable(decl, next, core) == decl,
{
    lemma_free_spec_is_fixed(decl.body, next, core);
    lemma_free_opt_spec_is_fixed(decl.adj, next, core);
    lemma_free_opt_spec_is_fixed(decl.ctl, next, core);
    lemma_free_opt_spec_is_fixed(decl.ctl_adj, next, core);
}

} // verus!
