//! Surveys a specialization.

use vstd::prelude::*;
use crate::global::Table;
use crate::hir::{SpecBody, SpecDecl};
use crate::loop_unification::model::{fresh_spec, lowerable_spec};
use crate::loop_unification::survey::{capped, Survey};
use crate::loop_unification::survey::block::survey_block;

verus! {

/// Surveys a specialization.
pub fn survey_spec(core: &Table, spec: &SpecDecl) -> (r: Survey)
    ensures
        r.lowerable == lowerable_spec(spec@, core@),
        r.fresh == capped(fresh_spec(spec@)),
{
    match &spec.body {
        SpecBody::Gen(_) => Survey::nothing(),
        SpecBody::Impl(_, block) => survey_block(core, block),
    }
}

} // verus!
