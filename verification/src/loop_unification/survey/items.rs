//! Surveys a list of items.

use vstd::prelude::*;
use crate::global::Table;
use crate::hir::{items_view, Item};
use crate::loop_unification::model::{
    fresh_item, fresh_items, item_counts, lemma_total_before, lowerable_item, lowerable_items,
    total_before,
};
use crate::loop_unification::survey::{capped, Survey};
use crate::loop_unification::survey::item::survey_item;

verus! {

/// Surveys a list of items.
pub fn survey_items(core: &Table, items: &Vec<Item>) -> (r: Survey)
    ensures
        r.lowerable == lowerable_items(items_view(items@), core@),
        r.fresh == capped(fresh_items(items_view(items@))),
{
    let ghost views = items_view(items@);
    let ghost counts = item_counts(views);
    let mut all = Survey::nothing();
    let mut i: usize = 0;
    proof {
        lemma_total_before(counts, 0);
    }
    while i < items.len()
        invariant
            i <= items.len(),
            views == items_view(items@),
            counts == item_counts(views),
            all.lowerable == (forall|j: int| 0 <= j < i ==> lowerable_item(#[trigger] views[j], core@)),
            all.fresh == capped(total_before(counts, i as int)),
        decreases items.len() - i,
    {
        proof {
            lemma_total_before(counts, i as int);
            assert(views[i as int] == items[i as int]@);
            assert(counts[i as int] == fresh_item(views[i as int]));
        }
        let one = survey_item(core, &items[i]);
        all = all.and(one);
        i += 1;
    }
    proof {
        lemma_total_before(counts, counts.len() as int);
    }
    all
}

} // verus!
