//! After the pass an item holds no `for` and no `repeat` loop.

use vstd::prelude::*;
use crate::global::TermView;
use crate::hir::{ItemKindView, ItemView};
use crate::loop_unification::model::{lower_item, lowerable_item};
use crate::loop_unification::primitive::sugar_free_item;

use crate::loop_unification::laws::lowered_callable_is_free::lemma_lowered_callable_is_free;

verus! {

/// After the pass an item holds no `for` and no `repeat` loop.
pub proof fn lemma_lowered_item_is_free(item: ItemView, next: nat, core: Seq<TermView>)
    requires
        lowerable_item(item, core),
    ensures
        sugar_free_item(lower_item(item, next, core)),
{
    match item.kind {
        ItemKindView::Callable(decl) => lemma_lowered_callable_is_free(decl, next, core),
        ItemKindView::Namespace(_, _) => {},
    }
}

} // verus!
