//! The names of the nodes that the bridge has heard of.

use std::collections::HashMap;
use vstd::prelude::*;
use vstd::std_specs::hash::group_hash_axioms;

use crate::text::decimal;
use crate::text::to_decimal;
use crate::types::NodeNames;
use crate::types::NodeRecord;

verus! {

/// Names by node number.
#[derive(Debug)]
pub struct Storage {
    pub nodes: HashMap<u32, NodeRecord>,
}

impl View for Storage {
    type V = Map<u32, NodeNames>;

    open spec fn view(&self) -> Map<u32, NodeNames> {
        self.nodes@.map_values(|record: NodeRecord| record@)
    }
}

/// The name under which the bridge shows a node: its long name where it is
/// known, else its number.
pub open spec fn shown_name(nodes: Map<u32, NodeNames>, node_id: u32) -> Seq<char> {
    if nodes.contains_key(node_id) {
        nodes[node_id].long_name
    } else {
        decimal(node_id as nat)
    }
}

impl Default for Storage {
    fn default() -> (storage: Self)
        ensures
            storage@ == Map::<u32, NodeNames>::empty(),
    {
        let storage = Storage { nodes: HashMap::new() };
        assert(storage@ =~= Map::empty());
        storage
    }
}

impl Storage {
    /// Records the names of a node, in place of what was known of it.
    pub fn insert_node(&mut self, node_id: u32, user: NodeRecord)
        ensures
            final(self)@ == old(self)@.insert(node_id, user@),
    {
        broadcast use group_hash_axioms;

        self.nodes.insert(node_id, user);
        assert(self@ =~= old(self)@.insert(node_id, user@));
    }

    /// The name under which a node is shown.
    pub fn long_name_of(&self, node_id: u32) -> (name: String)
        ensures
            name@ == shown_name(self@, node_id),
    {
        broadcast use group_hash_axioms;

        match self.nodes.get(&node_id) {
            Some(user) => user.long_name.clone(),
            None => to_decimal(node_id as u64),
        }
    }
}

} // verus!
