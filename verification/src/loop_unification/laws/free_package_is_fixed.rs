//! The pass leaves a package without `for` and `repeat` loops as it is, and
//! draws no identity for it.

use vstd::prelude::*;
use crate::global::TermView;
use crate::hir::PackageView;
use crate::loop_unification::model::{
    fresh_items, fresh_package, item_counts, lower_package, lowerable_item, lowerable_package,
    total_before,
};
use crate::loop_unification::primitive::sugar_free_package;

use crate::loop_unification::fixed::free_expr_is_fixed::lemma_free_expr_is_fixed;
use crate::loop_unification::fixed::total_zero::lemma_total_zero;
use crate::loop_unification::laws::free_item_is_fixed::lemma_free_item_is_fixed;

verus! {

/// The pass leaves a package without `for` and `repeat` loops as it is, and
/// draws no identity for it.
pub proof fn lemma_free_package_is_fixed(package: PackageView, next: nat, core: Seq<TermView>)
    requires
        sugar_free_package(package),
    ensures
        lowerable_package(package, core),
        fresh_package(package) == 0,
        lower_package(package, next, core) == package,
{
    let lowered = lower_package(package, next, core);
    let counts = item_counts(package.items);
    assert forall|i: int| 0 <= i < package.items.len() implies lowerable_item(
        #[trigger] package.items[i],
        core,
    ) && counts[i] == 0 && lowered.items[i] == package.items[i] by {
        lemma_free_item_is_fixed(package.items[i], next + total_before(counts, i), core);
    }
    lemma_total_zero(counts);
    assert(lowered.items =~= package.items);
    match package.entry {
        Some(e) => lemma_free_expr_is_fixed(e, next + fresh_items(package.items), core),
        None => {},
    }
}

} // verus!
