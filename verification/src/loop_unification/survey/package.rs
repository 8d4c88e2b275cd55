//! Tells whether the pass can be asked to lower `package`, and how many
//! identities it would draw.

use vstd::prelude::*;
use crate::global::Table;
use crate::hir::Package;
use crate::loop_unification::model::{fresh_package, lowerable_package};
use crate::loop_unification::survey::{capped, Survey};
use crate::loop_unification::survey::items::survey_items;
use crate::loop_unification::survey::entry::survey_entry;

verus! {

/// Tells whether the pass can be asked to lower `package`, and how many
/// identities it would draw.
pub fn survey_package(core: &Table, package: &Package) -> (r: Survey)
    ensures
        r.lowerable == lowerable_package(package@, core@),
        r.fresh == capped(fresh_package(package@)),
{
    survey_items(core, &package.items).and(survey_entry(core, &package.entry))
}

} // verus!
