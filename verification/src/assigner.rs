//! Node identities and the allocator that hands them out.

use vstd::prelude::*;

verus! {

/// The number that marks a node without an identity of its own.
pub const PLACEHOLDER: u32 = 0xFFFF_FFFF;

/// The identity of a node.
#[derive(Clone, Copy, Debug, PartialEq, Eq, Structural)]
pub struct NodeId(pub u32);

impl NodeId {
    /// Whether this is the placeholder, which no allocator hands out.
    pub open spec fn spec_is_default(self) -> bool {
        self.0 == PLACEHOLDER
    }

    #[verifier::when_used_as_spec(spec_is_default)]
    pub fn is_default(self) -> (r: bool)
        ensures
            r == self.spec_is_default(),
    {
        self.0 == PLACEHOLDER
    }

    /// The identity after this one.
    pub fn successor(self) -> (r: NodeId)
        requires
            self.0 < PLACEHOLDER,
        ensures
            r.0 == self.0 + 1,
    {
        NodeId(self.0 + 1)
    }
}

impl Default for NodeId {
    fn default() -> (r: NodeId)
        ensures
            r == NodeId(PLACEHOLDER),
    {
        NodeId(PLACEHOLDER)
    }
}

/// Hands out identities in increasing order, each one once.
#[derive(Debug)]
pub struct Assigner {
    next_id: NodeId,
}

impl Assigner {
    /// The identity that the next call of `next_id` returns.
    pub closed spec fn view(&self) -> nat {
        self.next_id.0 as nat
    }

    /// An allocator that starts at the first identity.
    pub fn new() -> (r: Assigner)
        ensures
            r@ == 0,
    {
        Assigner { next_id: NodeId(0) }
    }

    /// An allocator that goes on from `next`.
    pub fn starting_at(next: NodeId) -> (r: Assigner)
        ensures
            r@ == next.0,
    {
        Assigner { next_id: next }
    }

    /// How many identities are left before the placeholder is reached.
    pub fn remaining(&self) -> (r: u32)
        ensures
            r == PLACEHOLDER - self@,
    {
        PLACEHOLDER - self.next_id.0
    }

    /// Hands out the next identity.
    pub fn next_id(&mut self) -> (r: NodeId)
        requires
            old(self)@ < PLACEHOLDER,
        ensures
            r.0 == old(self)@,
            final(self)@ == old(self)@ + 1,
    {
        let id = self.next_id;
        self.next_id = id.successor();
        id
    }
}

} // verus!
