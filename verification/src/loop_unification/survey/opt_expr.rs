//! Surveys an expression that may be absent.

use vstd::prelude::*;
use crate::global::Table;
use crate::hir::{opt_expr_view, Expr};
use crate::loop_unification::model::{fresh_opt_expr, lowerable_opt_expr};
use crate::loop_unification::survey::{capped, Survey};
use crate::loop_unification::survey::expr::survey_expr;

verus! {

/// Surveys an expression that may be absent.
pub fn survey_opt_expr(core: &Table, e: &Option<Box<Expr>>) -> (r: Survey)
    ensures
        r.lowerable == lowerable_opt_expr(opt_expr_view(*e), core@),
        r.fresh == capped(fresh_opt_expr(opt_expr_view(*e))),
    decreases e, 0nat,
{
    match e {
        Some(e) => survey_expr(core, e),
        None => Survey::nothing(),
    }
}

} // verus!
