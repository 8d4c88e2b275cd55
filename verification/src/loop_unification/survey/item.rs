//! Surveys an item.

use vstd::prelude::*;
use crate::global::Table;
use crate::hir::{Item, ItemKind};
use crate::loop_unification::model::{fresh_item, lowerable_item};
use crate::loop_unification::survey::{capped, Survey};
use crate::loop_unification::survey::callable::survey_callable;

verus! {

/// Surveys an item.
pub fn survey_item(core: &Table, item: &Item) -> (r: Survey)
    ensures
        r.lowerable == lowerable_item(item@, core@),
        r.fresh == capped(fresh_item(item@)),
{
    match &item.kind {
        ItemKind::Callable(decl) => survey_callable(core, decl),
        ItemKind::Namespace(_, _) => Survey::nothing(),
    }
}

} // verus!
