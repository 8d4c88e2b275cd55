//! Source regions.

use vstd::prelude::*;

verus! {

/// A region of source text: the bytes from `lo` up to, not including, `hi`.
#[derive(Clone, Copy, Debug, PartialEq, Eq, Structural)]
pub struct Span {
    /// The offset of the first byte.
    pub lo: u32,
    /// The offset one past the last byte.
    pub hi: u32,
}

impl Span {
    /// Whether `offset` lies inside the region.
    pub open spec fn spec_contains(self, offset: u32) -> bool {
        self.lo <= offset < self.hi
    }

    #[verifier::when_used_as_spec(spec_contains)]
    pub fn contains(self, offset: u32) -> (r: bool)
        ensures
            r == self.spec_contains(offset),
    {
        self.lo <= offset && offset < self.hi
    }
}

} // verus!
