use vstd::prelude::*;

verus! {

/// Opaque, totally ordered identity of a node; ordered by its numeric value.
#[derive(Debug, Copy, Clone, PartialEq, Eq, Structural, PartialOrd, Ord, Hash)]
pub struct NodeId(u64);

impl View for NodeId {
    type V = u64;

    closed spec fn view(&self) -> u64 {
        self.0
    }
}

impl NodeId {
    pub fn new(raw: u64) -> (r: NodeId)
        ensures
            r@ == raw,
    {
        NodeId(raw)
    }

    pub fn raw(self) -> (r: u64)
        ensures
            r == self@,
    {
        self.0
    }
}

} // verus!
