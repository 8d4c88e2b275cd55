//! The rule for `repeat` loops.

use vstd::prelude::*;
use crate::assigner::{Assigner, NodeId, PLACEHOLDER};
use crate::common::IdentTemplate;
use crate::hir::{
    opt_block_view, stmts_view, Block, Expr, ExprKind, Lit, Mutability, Stmt, StmtKind, UnOp,
};
use crate::loop_unification::expansion::repeat_expansion;
use crate::span::Span;
use crate::ty::{Prim, Ty};
use crate::loop_unification::rules::nodes::gen_block_expr;
use crate::loop_unification::rules::nodes::gen_while;
use crate::loop_unification::rules::nodes::lemma_stmts_view_push;

verus! {

/// Replaces a `repeat` loop, whose parts hold no loop any more, by a `while`
/// loop over a fresh flag.
pub fn lower_repeat(
    assigner: &mut Assigner,
    body: Block,
    until: Expr,
    fixup: Option<Block>,
    span: Span,
) -> (r: Expr)
    requires
        old(assigner)@ < PLACEHOLDER,
    ensures
        r@ == repeat_expansion(
            body@,
            until@,
            opt_block_view(fixup),
            span,
            old(assigner)@,
        ),
        final(assigner)@ == old(assigner)@ + 1,
{
    reveal(repeat_expansion);
    let cond_span = until.span;
    let flag = IdentTemplate::new(assigner, "continue_cond", Ty::Prim(Prim::Bool), cond_span);
    let init = flag.gen_id_init(
        Mutability::Mutable,
        Expr {
            id: NodeId::default(),
            span: cond_span,
            ty: Ty::Prim(Prim::Bool),
            kind: ExprKind::Lit(Lit::Bool(true)),
        },
    );
    let update = Stmt {
        id: NodeId::default(),
        span: cond_span,
        kind: StmtKind::Semi(
            Expr {
                id: NodeId::default(),
                span: cond_span,
                ty: Ty::unit(),
                kind: ExprKind::Assign(
                    Box::new(flag.gen_local_ref()),
                    Box::new(
                        Expr {
                            id: NodeId::default(),
                            span: cond_span,
                            ty: Ty::Prim(Prim::Bool),
                            kind: ExprKind::UnOp(UnOp::NotL, Box::new(until)),
                        },
                    ),
                ),
            },
        ),
    };
    let mut block = body;
    proof {
        lemma_stmts_view_push(block.stmts@, update);
    }
    block.stmts.push(update);
    match fixup {
        Some(fix) => {
            let fix_span = fix.span;
            let fix_if = Stmt {
                id: NodeId::default(),
                span: fix_span,
                kind: StmtKind::Expr(
                    Expr {
                        id: NodeId::default(),
                        span: fix_span,
                        ty: Ty::unit(),
                        kind: ExprKind::If(
                            Box::new(flag.gen_local_ref()),
                            Box::new(
                                Expr {
                                    id: NodeId::default(),
                                    span: fix_span,
                                    ty: Ty::unit(),
                                    kind: ExprKind::Block(fix),
                                },
                            ),
                            None,
                        ),
                    },
                ),
            };
            proof {
                lemma_stmts_view_push(block.stmts@, fix_if);
            }
            block.stmts.push(fix_if);
            assert(block@.stmts =~= body@.stmts + seq![update@, fix_if@]);
        },
        None => {
            assert(block@.stmts =~= body@.stmts + seq![update@]);
        },
    }
    let looped = gen_while(flag.gen_local_ref(), block, span);
    let stmts = vec![init, looped];
    assert(stmts_view(stmts@) =~= seq![init@, looped@]);
    gen_block_expr(span, stmts)
}

} // verus!
