//! The result of the pass holds only primitive constructs: after it, a
//! package holds no `for` and no `repeat` loop, neither in its items nor in
//! its first expression.

use vstd::prelude::*;
use crate::global::TermView;
use crate::hir::PackageView;
use crate::loop_unification::model::{
    fresh_items, item_counts, lower_package, lowerable_package, total_before,
};
use crate::loop_unification::primitive::{sugar_free_item, sugar_free_package};

use crate::loop_unification::removal::lowered_expr_is_free::lemma_lowered_expr_is_free;
use crate::loop_unification::laws::lowered_item_is_free::lemma_lowered_item_is_free;

verus! {

/// The result of the pass holds only primitive constructs: after it, a
/// package holds no `for` and no `repeat` loop, neither in its items nor in
/// its first expression.
pub proof fn lemma_lowered_package_is_free(package: PackageView, next: nat, core: Seq<TermView>)
    requires
        lowerable_package(package, core),
    ensures
        sugar_free_package(lower_package(package, next, core)),
{
    let lowered = lower_package(package, next, core);
    assert forall|i: int| 0 <= i < lowered.items.len() implies sugar_free_item(
        #[trigger] lowered.items[i],
    ) by {
        lemma_lowered_item_is_free(
            package.items[i],
            next + total_before(item_counts(package.items), i),
            core,
        );
    }
    match package.entry {
        Some(e) => lemma_lowered_expr_is_free(e, next + fresh_items(package.items), core),
        None => {},
    }
}

} // verus!
