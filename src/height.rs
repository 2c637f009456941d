use vstd::prelude::*;

verus! {

/// A block height of the counterparty chain: a revision and a height in it.
#[derive(PartialEq, Eq, Structural, Clone, Copy, Debug)]
pub struct Height {
    pub revision_number: u64,
    pub revision_height: u64,
}

impl Height {
    /// Heights are ordered by revision first, then by height in the revision.
    pub open spec fn before(self, other: Height) -> bool {
        self.revision_number < other.revision_number || (self.revision_number
            == other.revision_number && self.revision_height < other.revision_height)
    }

    pub open spec fn not_after(self, other: Height) -> bool {
        self == other || self.before(other)
    }

    pub fn new(revision_number: u64, revision_height: u64) -> (r: Height)
        ensures
            r.revision_number == revision_number,
            r.revision_height == revision_height,
    {
        Height { revision_number, revision_height }
    }

    pub fn is_before(&self, other: &Height) -> (r: bool)
        ensures
            r == self.before(*other),
    {
        self.revision_number < other.revision_number || (self.revision_number
            == other.revision_number && self.revision_height < other.revision_height)
    }
}

} // verus!
