//! The rule for `for` loops over arrays.

use vstd::prelude::*;
use crate::assigner::{Assigner, PLACEHOLDER};
use crate::common::IdentTemplate;
use crate::global::Table;
use crate::hir::{stmts_view, BinOp, Block, Expr, Mutability, Pat};
use crate::loop_unification::expansion::{array_item, for_array_expansion, length_callee};
use crate::span::Span;
use crate::ty::{Prim, Ty};
use crate::loop_unification::rules::nodes::gen_array_item_init;
use crate::loop_unification::rules::nodes::gen_array_len_init;
use crate::loop_unification::rules::nodes::gen_bin_op;
use crate::loop_unification::rules::nodes::gen_block_expr;
use crate::loop_unification::rules::nodes::gen_int;
use crate::loop_unification::rules::nodes::gen_length_callee;
use crate::loop_unification::rules::nodes::gen_update;
use crate::loop_unification::rules::nodes::gen_while;
use crate::loop_unification::rules::nodes::gen_wrapped;
use crate::loop_unification::rules::nodes::item_of;

verus! {

/// Replaces a `for` loop over an array, whose parts hold no loop any more,
/// by a `while` loop over a fresh index.
pub fn lower_for_array(
    core: &Table,
    assigner: &mut Assigner,
    pat: Pat,
    iterable: Expr,
    body: Block,
    span: Span,
) -> (r: Expr)
    requires
        old(assigner)@ + 3 <= PLACEHOLDER,
        iterable@.ty is Array,
        length_callee(core@, array_item(iterable@.ty), iterable.span) is Some,
    ensures
        r@ == for_array_expansion(pat@, iterable@, body@, span, old(assigner)@, core@),
        final(assigner)@ == old(assigner)@ + 3,
{
    reveal(for_array_expansion);
    let iterable_span = iterable.span;
    let array = IdentTemplate::new(assigner, "array_id", iterable.ty.clone(), iterable_span);
    let item_ty = item_of(&array.ty);
    let callee = gen_length_callee(core, item_ty.clone(), iterable_span).unwrap();
    let array_capture = array.gen_id_init(Mutability::Immutable, iterable);
    let len = IdentTemplate::new(assigner, "len_id", Ty::Prim(Prim::Int), iterable_span);
    let len_capture = gen_array_len_init(&array, &len, callee);
    let index = IdentTemplate::new(assigner, "index_id", Ty::Prim(Prim::Int), iterable_span);
    let index_init = index.gen_id_init(Mutability::Mutable, gen_int(0, iterable_span));
    let pat_init = gen_array_item_init(pat, &array, &index, item_ty, span);
    let update = gen_update(BinOp::Add, &index, gen_int(1, iterable_span));
    let block = gen_wrapped(body, pat_init, update);
    let cond = gen_bin_op(
        BinOp::Lt,
        index.gen_local_ref(),
        len.gen_local_ref(),
        Ty::Prim(Prim::Bool),
        iterable_span,
    );
    let looped = gen_while(cond, block, span);
    let stmts = vec![array_capture, len_capture, index_init, looped];
    assert(stmts_view(stmts@) =~= seq![array_capture@, len_capture@, index_init@, looped@]);
    gen_block_expr(span, stmts)
}

} // verus!
