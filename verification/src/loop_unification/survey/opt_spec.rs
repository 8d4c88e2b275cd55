//! Surveys a specialization that may be absent.

use vstd::prelude::*;
use crate::global::Table;
use crate::hir::{opt_spec_view, SpecDecl};
use crate::loop_unification::model::{fresh_opt_spec, lowerable_opt_spec};
use crate::loop_unification::survey::{capped, Survey};
use crate::loop_unification::survey::spec::survey_spec;

verus! {

/// Surveys a specialization that may be absent.
pub fn survey_opt_spec(core: &Table, spec: &Option<SpecDecl>) -> (r: Survey)
    ensures
        r.lowerable == lowerable_opt_spec(opt_spec_view(*spec), core@),
        r.fresh == capped(fresh_opt_spec(opt_spec_view(*spec))),
{
    match spec {
        Some(spec) => survey_spec(core, spec),
        None => Survey::nothing(),
    }
}

} // verus!
