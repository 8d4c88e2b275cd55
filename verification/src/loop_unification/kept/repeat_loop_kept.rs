//! After the pass what stands in place of a `repeat` loop holds every expression that is no
//! loop itself as often as before.

use vstd::prelude::*;
use crate::global::TermView;
use crate::hir::{ExprKindView, ExprView};
use crate::loop_unification::model::{
    fresh_block, fresh_expr, fresh_opt_block, lower_block, lower_expr, lower_opt_block,
    lowerable_expr,
};
use crate::assigner::{NodeId, PLACEHOLDER};
use crate::loop_unification::occurrences::occ_expr;
use crate::loop_unification::occurrences::kept_expr;
use crate::loop_unification::once::occ_repeat_expansion::lemma_occ_repeat_expansion;
use crate::loop_unification::kept::expr_kept::lemma_expr_kept;
use crate::loop_unification::kept::opt_block_kept::lemma_opt_block_kept;
use crate::loop_unification::kept::block_kept::lemma_block_kept;

verus! {

/// After the pass what stands in place of a `repeat` loop holds every expression that is no
/// loop itself as often as before.
pub proof fn lemma_repeat_loop_kept(id: NodeId, e: ExprView, next: nat, core: Seq<TermView>)
    requires
        id != NodeId(PLACEHOLDER),
        lowerable_expr(e, core),
        e.kind is Repeat,
    ensures
        occ_expr(id, lower_expr(e, next, core)) == kept_expr(id, e),
    decreases e, 0nat,
{
    reveal_with_fuel(lower_expr, 1);
    reveal_with_fuel(lowerable_expr, 1);
    match e.kind {
        ExprKindView::Repeat(body, until, fixup) => {
            lemma_block_kept(id, body, next, core);
            lemma_expr_kept(id, *until, next + fresh_block(body), core);
            lemma_opt_block_kept(id, 
                fixup,
                next + fresh_block(body) + fresh_expr(*until),
                core,
            );
            lemma_occ_repeat_expansion(
                id,
                lower_block(body, next, core),
                lower_expr(*until, next + fresh_block(body), core),
                lower_opt_block(fixup, next + fresh_block(body) + fresh_expr(*until), core),
                e.span,
                next + fresh_block(body) + fresh_expr(*until) + fresh_opt_block(fixup),
            );
        },
        _ => {},
    }
}

} // verus!
