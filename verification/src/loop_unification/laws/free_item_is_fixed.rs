//! The pass leaves an item without `for` and `repeat` loops as it is.

use vstd::prelude::*;
use crate::global::TermView;
use crate::hir::{ItemKindView, ItemView};
use crate::loop_unification::model::{fresh_item, lower_item, lowerable_item};
use crate::loop_unification::primitive::sugar_free_item;

use crate::loop_unification::laws::free_callable_is_fixed::lemma_free_callable_is_fixed;

verus! {

/// The pass leaves an item without `for` and `repeat` loops as it is.
pub proof fn lemma_free_item_is_fixed(item: ItemView, next: nat, core: Seq<TermView>)
    requires
        sugar_free_item(item),
    ensures
        lowerable_item(item, core),
        fresh_item(item) == 0,
        lower_item(item, next, core) == item,
{
    match item.kind {
        ItemKindView::Callable(decl) => lemma_free_callable_is_fixed(decl, next, core),
        ItemKindView::Namespace(_, _) => {},
    }
}

} // verus!
