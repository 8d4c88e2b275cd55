//! Running the pass again changes nothing: the result of the pass can be
//! lowered, lowering it draws no identity, and gives it back unchanged,
//! whatever the allocator has reached by then.

use vstd::prelude::*;
use crate::global::TermView;
use crate::hir::PackageView;
use crate::loop_unification::model::{fresh_package, lower_package, lowerable_package};
use crate::loop_unification::laws::lowered_package_is_free::lemma_lowered_package_is_free;
use crate::loop_unification::laws::free_package_is_fixed::lemma_free_package_is_fixed;

verus! {

/// Running the pass again changes nothing: the result of the pass can be
/// lowered, lowering it draws no identity, and gives it back unchanged,
/// whatever the allocator has reached by then.
pub proof fn lemma_pass_is_idempotent(
    package: PackageView,
    next: nat,
    again: nat,
    core: Seq<TermView>,
)
    requires
        lowerable_package(package, core),
    ensures
        lowerable_package(lower_package(package, next, core), core),
        fresh_package(lower_package(package, next, core)) == 0,
        lower_package(lower_package(package, next, core), again, core) == lower_package(
            package,
            next,
            core,
        ),
{
    lemma_lowered_package_is_free(package, next, core);
    lemma_free_package_is_fixed(lower_package(package, next, core), again, core);
}

} // verus!
