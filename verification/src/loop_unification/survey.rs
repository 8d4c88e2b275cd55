//! Telling beforehand whether the pass can be asked, and how much it would draw.

pub mod unary;
pub mod binary;
pub mod listed;
pub mod branching;
pub mod blocked;
pub mod for_loop;
pub mod repeat_loop;
pub mod is_sugar;
pub mod iterable;
pub mod until;
pub mod expr;
pub mod opt_expr;
pub mod opt_block;
pub mod exprs;
pub mod component;
pub mod components;
pub mod stmt;
pub mod stmts;
pub mod block;
pub mod spec;
pub mod opt_spec;
pub mod callable;
pub mod item;
pub mod items;
pub mod entry;
pub mod package;

use vstd::prelude::*;

verus! {

/// A count as far as 32 bits can tell it: `None` stands for every count
/// beyond them.
pub open spec fn capped(count: nat) -> Option<u32> {
    if count <= u32::MAX {
        Some(count as u32)
    } else {
        None
    }
}

/// What a survey of a tree tells: whether the pass can be asked to lower
/// it, and how many identities the pass would draw for it, `None` where
/// they are more than 32 bits can count.
#[derive(Clone, Copy, Debug, PartialEq, Eq, Structural)]
pub struct Survey {
    pub lowerable: bool,
    pub fresh: Option<u32>,
}

impl Survey {
    /// The survey of a tree without loops.
    pub fn nothing() -> (r: Survey)
        ensures
            r.lowerable,
            r.fresh == Some(0u32),
    {
        Survey { lowerable: true, fresh: Some(0) }
    }

    /// The survey of two trees side by side: both must be lowerable, and
    /// their counts add up.
    pub fn and(self, other: Survey) -> (r: Survey)
        ensures
            r.lowerable == (self.lowerable && other.lowerable),
            forall|a: nat, b: nat|
                self.fresh == capped(a) && other.fresh == capped(b) ==> r.fresh == #[trigger] capped(
                    a + b,
                ),
    {
        let fresh = match (self.fresh, other.fresh) {
            (Some(a), Some(b)) => a.checked_add(b),
            _ => None,
        };
        Survey { lowerable: self.lowerable && other.lowerable, fresh }
    }
}

} // verus!
