//! Surveys a package's first expression, where it has one.

use vstd::prelude::*;
use crate::global::Table;
use crate::hir::{entry_view, Expr};
use crate::loop_unification::model::{fresh_entry, lowerable_entry};
use crate::loop_unification::survey::{capped, Survey};
use crate::loop_unification::survey::expr::survey_expr;

verus! {

/// Surveys a package's first expression, where it has one.
pub fn survey_entry(core: &Table, entry: &Option<Expr>) -> (r: Survey)
    ensures
        r.lowerable == lowerable_entry(entry_view(*entry), core@),
        r.fresh == capped(fresh_entry(entry_view(*entry))),
{
    match entry {
        Some(e) => survey_expr(core, e),
        None => Survey::nothing(),
    }
}

} // verus!
