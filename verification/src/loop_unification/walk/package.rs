//! The walk over packages and their items.

use vstd::prelude::*;
use crate::assigner::{Assigner, PLACEHOLDER};
use crate::global::Table;
use crate::hir::Expr;
use crate::loop_unification::model;
use crate::loop_unification::model::{lemma_total_before, total, total_before};
use crate::hir::{
    entry_view, items_view, opt_spec_view, CallableDecl, Item, ItemKind, Package, SpecBody,
    SpecDecl,
};
use crate::loop_unification::walk::block::lower_block;
use crate::loop_unification::walk::expr::lower_expr;
use crate::loop_unification::model::{
    fresh_callable, fresh_entry, fresh_item, fresh_items, fresh_opt_spec, fresh_package, fresh_spec,
    item_counts, lowerable_callable, lowerable_entry, lowerable_item, lowerable_items,
    lowerable_opt_spec, lowerable_package, lowerable_spec,
};

verus! {

/// Lowers every loop in a specialization.
pub fn lower_spec(core: &Table, assigner: &mut Assigner, spec: SpecDecl) -> (r: SpecDecl)
    requires
        lowerable_spec(spec@, core@),
        old(assigner)@ + fresh_spec(spec@) <= PLACEHOLDER,
    ensures
        r@ == model::lower_spec(spec@, old(assigner)@, core@),
        final(assigner)@ == old(assigner)@ + fresh_spec(spec@),
{
    let SpecDecl { id, span, body } = spec;
    match body {
        SpecBody::Gen(gen) => SpecDecl { id, span, body: SpecBody::Gen(gen) },
        SpecBody::Impl(pat, block) => {
            let block = lower_block(core, assigner, block);
            SpecDecl { id, span, body: SpecBody::Impl(pat, block) }
        },
    }
}

/// Lowers every loop in a specialization that may be absent.
pub fn lower_opt_spec(core: &Table, assigner: &mut Assigner, spec: Option<SpecDecl>) -> (r: Option<
    SpecDecl,
>)
    requires
        lowerable_opt_spec(opt_spec_view(spec), core@),
        old(assigner)@ + fresh_opt_spec(opt_spec_view(spec)) <= PLACEHOLDER,
    ensures
        opt_spec_view(r) == model::lower_opt_spec(opt_spec_view(spec), old(assigner)@, core@),
        final(assigner)@ == old(assigner)@ + fresh_opt_spec(opt_spec_view(spec)),
{
    match spec {
        Some(spec) => Some(lower_spec(core, assigner, spec)),
        None => None,
    }
}

/// Lowers every loop in a callable: in its body first, then in its adjoint,
/// its controlled and its controlled adjoint specialization.
pub fn lower_callable(core: &Table, assigner: &mut Assigner, decl: CallableDecl) -> (r:
    CallableDecl)
    requires
        lowerable_callable(decl@, core@),
        old(assigner)@ + fresh_callable(decl@) <= PLACEHOLDER,
    ensures
        r@ == model::lower_callable(decl@, old(assigner)@, core@),
        final(assigner)@ == old(assigner)@ + fresh_callable(decl@),
{
    let CallableDecl { id, span, kind, name, input, output, functors, body, adj, ctl, ctl_adj } =
        decl;
    let body = lower_spec(core, assigner, body);
    let adj = lower_opt_spec(core, assigner, adj);
    let ctl = lower_opt_spec(core, assigner, ctl);
    let ctl_adj = lower_opt_spec(core, assigner, ctl_adj);
    CallableDecl { id, span, kind, name, input, output, functors, body, adj, ctl, ctl_adj }
}

/// Lowers every loop in an item.
pub fn lower_item(core: &Table, assigner: &mut Assigner, item: Item) -> (r: Item)
    requires
        lowerable_item(item@, core@),
        old(assigner)@ + fresh_item(item@) <= PLACEHOLDER,
    ensures
        r@ == model::lower_item(item@, old(assigner)@, core@),
        final(assigner)@ == old(assigner)@ + fresh_item(item@),
{
    let Item { id, span, parent, visibility, kind } = item;
    match kind {
        ItemKind::Callable(decl) => {
            let decl = lower_callable(core, assigner, decl);
            Item { id, span, parent, visibility, kind: ItemKind::Callable(decl) }
        },
        ItemKind::Namespace(name, items) => Item {
            id,
            span,
            parent,
            visibility,
            kind: ItemKind::Namespace(name, items),
        },
    }
}

/// Lowers every loop in a list of items, from the first to the last.
pub fn lower_items(core: &Table, assigner: &mut Assigner, items: Vec<Item>) -> (r: Vec<Item>)
    requires
        lowerable_items(items_view(items@), core@),
        old(assigner)@ + fresh_items(items_view(items@)) <= PLACEHOLDER,
    ensures
        items_view(r@) == model::lower_items(items_view(items@), old(assigner)@, core@),
        final(assigner)@ == old(assigner)@ + fresh_items(items_view(items@)),
{
    let ghost start = assigner@;
    let ghost orig = items;
    let ghost views = items_view(items@);
    let ghost counts = item_counts(views);
    let mut out: Vec<Item> = Vec::new();
    proof {
        lemma_total_before(counts, 0);
    }
    for item in iter: items
        invariant
            iter.seq() == orig@,
            views == items_view(orig@),
            counts == item_counts(views),
            lowerable_items(views, core@),
            start + total(counts) <= PLACEHOLDER,
            out.len() == iter.index(),
            assigner@ == start + total_before(counts, iter.index() as int),
            forall|j: int|
                0 <= j < out.len() ==> (#[trigger] out[j])@ == model::lower_item(
                    views[j],
                    start + total_before(counts, j),
                    core@,
                ),
    {
        let ghost i = iter.index() as int;
        proof {
            lemma_total_before(counts, i);
            lemma_total_before(counts, i + 1);
            assert(views[i] == orig[i]@);
            assert(lowerable_item(views[i], core@));
            assert(counts[i] == fresh_item(views[i]));
        }
        let lowered = lower_item(core, assigner, item);
        out.push(lowered);
    }
    proof {
        lemma_total_before(counts, counts.len() as int);
        assert(items_view(out@) =~= model::lower_items(views, start, core@));
    }
    out
}

/// Lowers every loop in a package's first expression, where it has one.
pub fn lower_entry(core: &Table, assigner: &mut Assigner, entry: Option<Expr>) -> (r: Option<Expr>)
    requires
        lowerable_entry(entry_view(entry), core@),
        old(assigner)@ + fresh_entry(entry_view(entry)) <= PLACEHOLDER,
    ensures
        entry_view(r) == model::lower_entry(entry_view(entry), old(assigner)@, core@),
        final(assigner)@ == old(assigner)@ + fresh_entry(entry_view(entry)),
{
    match entry {
        Some(e) => Some(lower_expr(core, assigner, e)),
        None => None,
    }
}

/// Lowers every loop in a package: in its items, in order, then in its first
/// expression.
pub fn lower_package(core: &Table, assigner: &mut Assigner, package: Package) -> (r: Package)
    requires
        lowerable_package(package@, core@),
        old(assigner)@ + fresh_package(package@) <= PLACEHOLDER,
    ensures
        r@ == model::lower_package(package@, old(assigner)@, core@),
        final(assigner)@ == old(assigner)@ + fresh_package(package@),
{
    let Package { items, entry } = package;
    let items = lower_items(core, assigner, items);
    let entry = lower_entry(core, assigner, entry);
    Package { items, entry }
}

} // verus!
