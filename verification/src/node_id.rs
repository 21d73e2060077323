//! The identifier of a cluster member.

use vstd::prelude::*;

verus! {

/// What a [`NodeId`] stands for: a name and an address, as sequences of characters.
pub struct NodeIdView {
    pub name: Seq<char>,
    pub addr: Seq<char>,
}

/// The identifier of one member of the cluster.
#[derive(Debug, PartialEq, Eq, Hash)]
pub struct NodeId {
    pub name: String,
    pub addr: String,
}

impl View for NodeId {
    type V = NodeIdView;

    open spec fn view(&self) -> NodeIdView {
        NodeIdView { name: self.name@, addr: self.addr@ }
    }
}

impl Clone for NodeId {
    fn clone(&self) -> (copy: NodeId)
        ensures
            copy@ == self@,
    {
        NodeId { name: self.name.clone(), addr: self.addr.clone() }
    }
}

impl NodeId {
    /// A node identifier with the given name and address.
    pub fn new(name: String, addr: String) -> (id: NodeId)
        ensures
            id@ == (NodeIdView { name: name@, addr: addr@ }),
    {
        NodeId { name, addr }
    }

    /// Whether two identifiers name the same node.
    pub fn same(&self, other: &NodeId) -> (equal: bool)
        ensures
            equal == (self@ == other@),
    {
        self.name == other.name && self.addr == other.addr
    }
}

} // verus!
