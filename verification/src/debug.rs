//! The evaluator's record of the calls in progress.

use vstd::prelude::*;
use crate::span::Span;
use crate::ty::{LocalItemId, PackageId};

verus! {

/// An item named across packages.
#[derive(Clone, Copy, Debug, PartialEq, Eq, Structural)]
pub struct GlobalId {
    /// The package that holds the item.
    pub package: PackageId,
    /// The item inside that package.
    pub item: LocalItemId,
}

/// The functors applied at a call: whether it is inverted, and by how many
/// layers of control.
#[derive(Clone, Copy, Debug, PartialEq, Eq, Structural)]
pub struct FunctorApp {
    /// Whether the adjoint was taken.
    pub adjoint: bool,
    /// How many times the call was controlled.
    pub controlled: u8,
}

/// One call in progress.
#[derive(Clone, Copy, Debug, PartialEq, Eq, Structural)]
pub struct Frame {
    /// Where the call was made, if known.
    pub span: Option<Span>,
    /// The callable that was entered.
    pub id: GlobalId,
    /// The package the call came from.
    pub caller: PackageId,
    /// The functors applied to the callable.
    pub functor: FunctorApp,
}

/// The calls in progress, the outermost first.
#[derive(Clone, Debug)]
pub struct CallStack {
    frames: Vec<Frame>,
}

impl CallStack {
    /// The frames, the outermost first.
    pub closed spec fn view(&self) -> Seq<Frame> {
        self.frames@
    }

    /// Whether no call is in progress.
    #[must_use]
    pub fn is_empty(&self) -> (r: bool)
        ensures
            r == (self@.len() == 0),
    {
        self.frames.len() == 0
    }

    /// Gives up the stack for its frames, the outermost first.
    #[must_use]
    pub fn into_frames(self) -> (r: Vec<Frame>)
        ensures
            r@ == self@,
    {
        self.frames
    }

    /// Enters a call: `frame` becomes the innermost frame.
    pub fn push_frame(&mut self, frame: Frame)
        ensures
            final(self)@ == old(self)@.push(frame),
    {
        self.frames.push(frame);
    }

    /// Leaves the innermost call and returns its frame; `None`, and no
    /// change, where no call is in progress.
    pub fn pop_frame(&mut self) -> (r: Option<Frame>)
        ensures
            old(self)@.len() == 0 ==> r.is_none() && final(self)@ == old(self)@,
            old(self)@.len() > 0 ==> r == Some(old(self)@.last()) && final(self)@ == old(
                self,
            )@.drop_last(),
    {
        self.frames.pop()
    }
}

impl PartialEq for CallStack {
    fn eq(&self, other: &Self) -> (r: bool) {
        if self.frames.len() != other.frames.len() {
            return false;
        }
        let mut i: usize = 0;
        while i < self.frames.len()
            invariant
                i <= self.frames.len(),
                self.frames.len() == other.frames.len(),
                forall|j: int| 0 <= j < i ==> self.frames[j] == other.frames[j],
            decreases self.frames.len() - i,
        {
            if self.frames[i] != other.frames[i] {
                return false;
            }
            i += 1;
        }
        assert(self.frames@ =~= other.frames@);
        true
    }
}

impl vstd::std_specs::cmp::PartialEqSpecImpl for CallStack {
    open spec fn obeys_eq_spec() -> bool {
        true
    }

    /// Two stacks are equal where they hold the same frames in the same
    /// order.
    open spec fn eq_spec(&self, other: &Self) -> bool {
        self@ == other@
    }
}

impl Default for CallStack {
    fn default() -> (r: Self)
        ensures
            r@ == Seq::<Frame>::empty(),
    {
        CallStack { frames: Vec::new() }
    }
}

} // verus!
