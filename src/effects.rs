use vstd::prelude::*;

use crate::patch::{PatchBatch, PatchOp};

verus! {

/// Append-only buffer of the operations pending in the open tick.
#[derive(Debug, Clone)]
pub struct EffectQueue {
    pending: Vec<PatchOp>,
}

impl View for EffectQueue {
    type V = Seq<PatchOp>;

    closed spec fn view(&self) -> Seq<PatchOp> {
        self.pending@
    }
}

impl EffectQueue {
    pub fn new() -> (r: EffectQueue)
        ensures
            r@ == Seq::<PatchOp>::empty(),
    {
        EffectQueue { pending: Vec::new() }
    }

    /// Appends `op` after the pending operations.
    pub fn push(&mut self, op: PatchOp)
        ensures
            final(self)@ == old(self)@.push(op),
    {
        self.pending.push(op);
    }

    /// Hands out every pending operation in order and leaves the queue empty.
    pub fn commit(&mut self) -> (r: PatchBatch)
        ensures
            r@ == old(self)@,
            final(self)@ == Seq::<PatchOp>::empty(),
    {
        let mut drained: Vec<PatchOp> = Vec::new();
        std::mem::swap(&mut drained, &mut self.pending);
        drained
    }

    /// The pending operations, in order.
    pub fn pending(&self) -> (r: &[PatchOp])
        ensures
            r@ == self@,
    {
        self.pending.as_slice()
    }
}

/// Pushing `a` then `b` onto an empty queue and committing hands out exactly `[a, b]`;
/// committing again with nothing pushed in between hands out nothing.
pub proof fn lemma_commit_drains_in_order(
    empty: EffectQueue,
    one: EffectQueue,
    two: EffectQueue,
    drained: EffectQueue,
    redrained: EffectQueue,
    a: PatchOp,
    b: PatchOp,
    first: Seq<PatchOp>,
    second: Seq<PatchOp>,
)
    requires
        empty@ == Seq::<PatchOp>::empty(),
        one@ == empty@.push(a),
        two@ == one@.push(b),
        first == two@,
        drained@ == Seq::<PatchOp>::empty(),
        second == drained@,
        redrained@ == Seq::<PatchOp>::empty(),
    ensures
        first == seq![a, b],
        second == Seq::<PatchOp>::empty(),
        redrained@ == Seq::<PatchOp>::empty(),
{
    assert(first =~= seq![a, b]);
}

} // verus!
