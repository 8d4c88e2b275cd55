//! The pass is a function of the tree, the allocator's state and the core
//! library's table: the same three give the same result, down to every
//! fresh name and identity, and leave the allocator in the same state.

use vstd::prelude::*;
use crate::global::TermView;
use crate::hir::PackageView;
use crate::loop_unification::model::{fresh_package, lower_package};

verus! {

/// The pass is a function of the tree, the allocator's state and the core
/// library's table: the same three give the same result, down to every
/// fresh name and identity, and leave the allocator in the same state.
pub proof fn lemma_pass_is_deterministic(
    package: PackageView,
    next: nat,
    core: Seq<TermView>,
    other_package: PackageView,
    other_next: nat,
    other_core: Seq<TermView>,
)
    requires
        package == other_package,
        next == other_next,
        core == other_core,
    ensures
        lower_package(package, next, core) == lower_package(other_package, other_next, other_core),
        next + fresh_package(package) == other_next + fresh_package(other_package),
{
}

} // verus!
