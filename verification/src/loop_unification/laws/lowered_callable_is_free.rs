//! After the pass a callable holds no `for` and no `repeat` loop.

use vstd::prelude::*;
use crate::global::TermView;
use crate::hir::CallableDeclView;
use crate::loop_unification::model::{
    fresh_opt_spec, fresh_spec, lower_callable, lowerable_callable,
};
use crate::loop_unification::primitive::sugar_free_callable;

use crate::loop_unification::laws::lowered_spec_is_free::lemma_lowered_spec_is_free;
use crate::loop_unification::laws::lowered_opt_spec_is_free::lemma_lowered_opt_spec_is_free;

verus! {

/// After the pass a callable holds no `for` and no `repeat` loop.
pub proof fn lemma_lowered_callable_is_free(decl: CallableDeclView, next: nat, core: Seq<TermView>)
    requires
        lowerable_callable(decl, core),
    ensures
        sugar_free_callable(lower_callable(decl, next, core)),
{
    let after_body = next + fresh_spec(decl.body);
    let after_adj = after_body + fresh_opt_spec(decl.adj);
    let after_ctl = after_adj + fresh_opt_spec(decl.ctl);
    lemma_lowered_spec_is_free(decl.body, next, core);
    lemma_lowered_opt_spec_is_free(decl.adj, after_body, core);
    lemma_lowered_opt_spec_is_free(decl.ctl, after_adj, core);
    lemma_lowered_opt_spec_is_free(decl.ctl_adj, after_ctl, core);
}

} // verus!
