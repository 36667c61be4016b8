use vstd::prelude::*;

use crate::types::NodeId;

verus! {

/// One mutation for a patch-applying consumer.
#[derive(Debug, Clone, PartialEq, Eq, Hash)]
pub enum PatchOp {
    SetText { node: NodeId, text: String },
    SetAttr { node: NodeId, name: String, value: String },
    Insert { parent: NodeId, child: NodeId },
    Remove { node: NodeId },
}

/// The operations of one tick, in the order they must be applied.
pub type PatchBatch = Vec<PatchOp>;

} // verus!
