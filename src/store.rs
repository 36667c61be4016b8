use std::collections::HashMap;
use vstd::prelude::*;

use crate::types::NodeId;

verus! {

broadcast use vstd::std_specs::hash::group_hash_axioms;

/// Last-write-wins map from node identity to its current text.
#[derive(Debug, Clone)]
pub struct Store {
    values: HashMap<u64, String>,
}

impl View for Store {
    type V = Map<u64, Seq<char>>;

    closed spec fn view(&self) -> Map<u64, Seq<char>> {
        self.values@.map_values(|s: String| s@)
    }
}

impl Store {
    pub fn new() -> (r: Store)
        ensures
            r@ == Map::<u64, Seq<char>>::empty(),
    {
        let r = Store { values: HashMap::new() };
        assert(r@ =~= Map::<u64, Seq<char>>::empty());
        r
    }

    /// Overwrites the value of `node`; always succeeds.
    pub fn set_value(&mut self, node: NodeId, value: &str)
        ensures
            final(self)@ == old(self)@.insert(node@, value@),
    {
        self.values.insert(node.raw(), value.to_string());
        assert(self@ =~= old(self)@.insert(node@, value@));
    }

    /// The current value of `node`, or `None` when it has none.
    pub fn get_value(&self, node: NodeId) -> (r: Option<&String>)
        ensures
            r.is_some() == self@.contains_key(node@),
            r.is_some() ==> r.unwrap()@ == self@[node@],
    {
        self.values.get(&node.raw())
    }
}

} // verus!
