//! Whether an expression is a `for` or a `repeat` loop.

use vstd::prelude::*;
use crate::hir::{Expr, ExprKind};
use crate::loop_unification::model::is_loop;

verus! {

/// Whether an expression is a `for` or a `repeat` loop.
pub fn is_sugar(e: &Expr) -> (r: bool)
    ensures
        r == is_loop(e@),
{
    match &e.kind {
        ExprKind::For(_, _, _) => true,
        ExprKind::Repeat(_, _, _) => true,
        _ => false,
    }
}

} // verus!
