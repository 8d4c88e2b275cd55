//! The rule for `for` loops over ranges.

use vstd::prelude::*;
use crate::assigner::{Assigner, NodeId, PLACEHOLDER};
use crate::common::IdentTemplate;
use crate::hir::{stmts_view, BinOp, Block, Expr, Mutability, Pat, PrimField, Stmt, StmtKind};
use crate::loop_unification::expansion::{for_range_expansion, range_guard};
use crate::span::Span;
use crate::ty::{Prim, Ty};
use crate::loop_unification::rules::nodes::gen_bin_op;
use crate::loop_unification::rules::nodes::gen_block_expr;
use crate::loop_unification::rules::nodes::gen_int;
use crate::loop_unification::rules::nodes::gen_range_field;
use crate::loop_unification::rules::nodes::gen_update;
use crate::loop_unification::rules::nodes::gen_while;
use crate::loop_unification::rules::nodes::gen_wrapped;

verus! {

/// Replaces a `for` loop over a range, whose parts hold no loop any more, by
/// a `while` loop over a fresh index.
pub fn lower_for_range(
    assigner: &mut Assigner,
    pat: Pat,
    iterable: Expr,
    body: Block,
    span: Span,
) -> (r: Expr)
    requires
        old(assigner)@ + 4 <= PLACEHOLDER,
    ensures
        r@ == for_range_expansion(pat@, iterable@, body@, span, old(assigner)@),
        final(assigner)@ == old(assigner)@ + 4,
{
    reveal(for_range_expansion);
    let iterable_span = iterable.span;
    let range = IdentTemplate::new(assigner, "range_id", Ty::Prim(Prim::Range), iterable_span);
    let range_capture = range.gen_id_init(Mutability::Immutable, iterable);
    let index = IdentTemplate::new(assigner, "index_id", Ty::Prim(Prim::Int), iterable_span);
    let index_init = index.gen_id_init(
        Mutability::Mutable,
        gen_range_field(&range, PrimField::Start),
    );
    let step = IdentTemplate::new(assigner, "step_id", Ty::Prim(Prim::Int), iterable_span);
    let step_init = step.gen_id_init(Mutability::Immutable, gen_range_field(&range, PrimField::Step));
    let end = IdentTemplate::new(assigner, "end_id", Ty::Prim(Prim::Int), iterable_span);
    let end_init = end.gen_id_init(Mutability::Immutable, gen_range_field(&range, PrimField::End));
    let pat_init = Stmt {
        id: NodeId::default(),
        span,
        kind: StmtKind::Local(Mutability::Immutable, pat, index.gen_local_ref()),
    };
    let update = gen_update(BinOp::Add, &index, step.gen_local_ref());
    let block = gen_wrapped(body, pat_init, update);
    let cond = gen_bin_op(
        BinOp::OrL,
        gen_bin_op(
            BinOp::AndL,
            gen_bin_op(
                BinOp::Gt,
                step.gen_local_ref(),
                gen_int(0, iterable_span),
                Ty::Prim(Prim::Bool),
                iterable_span,
            ),
            gen_bin_op(
                BinOp::Lte,
                index.gen_local_ref(),
                end.gen_local_ref(),
                Ty::Prim(Prim::Bool),
                iterable_span,
            ),
            Ty::Prim(Prim::Bool),
            iterable_span,
        ),
        gen_bin_op(
            BinOp::AndL,
            gen_bin_op(
                BinOp::Lt,
                step.gen_local_ref(),
                gen_int(0, iterable_span),
                Ty::Prim(Prim::Bool),
                iterable_span,
            ),
            gen_bin_op(
                BinOp::Gte,
                index.gen_local_ref(),
                end.gen_local_ref(),
                Ty::Prim(Prim::Bool),
                iterable_span,
            ),
            Ty::Prim(Prim::Bool),
            iterable_span,
        ),
        Ty::Prim(Prim::Bool),
        iterable_span,
    );
    assert(cond@ == range_guard(index@, step@, end@, iterable_span));
    let looped = gen_while(cond, block, span);
    let stmts = vec![range_capture, index_init, step_init, end_init, looped];
    assert(stmts_view(stmts@) =~= seq![
        range_capture@,
        index_init@,
        step_init@,
        end_init@,
        looped@,
    ]);
    gen_block_expr(span, stmts)
}

} // verus!
