//! Surveys a callable.

use vstd::prelude::*;
use crate::global::Table;
use crate::hir::CallableDecl;
use crate::loop_unification::model::{fresh_callable, lowerable_callable};
use crate::loop_unification::survey::{capped, Survey};
use crate::loop_unification::survey::spec::survey_spec;
use crate::loop_unification::survey::opt_spec::survey_opt_spec;

verus! {

/// Surveys a callable.
pub fn survey_callable(core: &Table, decl: &CallableDecl) -> (r: Survey)
    ensures
        r.lowerable == lowerable_callable(decl@, core@),
        r.fresh == capped(fresh_callable(decl@)),
{
    survey_spec(core, &decl.body).and(survey_opt_spec(core, &decl.adj)).and(
        survey_opt_spec(core, &decl.ctl),
    ).and(survey_opt_spec(core, &decl.ctl_adj))
}

} // verus!
