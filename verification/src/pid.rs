//! The address of a process or a service.

use vstd::prelude::*;
use crate::node_id::{NodeId, NodeIdView};

verus! {

/// What a [`Pid`] stands for: the node it lives on and its name there.
pub struct PidView {
    pub node: NodeIdView,
    pub name: Seq<char>,
}

/// The address of a process or service. The registry of a node keeps the
/// names on that node unique.
#[derive(Debug, PartialEq, Eq, Hash)]
pub struct Pid {
    pub node: NodeId,
    pub name: String,
}

impl View for Pid {
    type V = PidView;

    open spec fn view(&self) -> PidView {
        PidView { node: self.node@, name: self.name@ }
    }
}

impl Clone for Pid {
    fn clone(&self) -> (copy: Pid)
        ensures
            copy@ == self@,
    {
        Pid { node: self.node.clone(), name: self.name.clone() }
    }
}

impl Pid {
    /// The address of `name` on `node`.
    pub fn new(node: NodeId, name: String) -> (pid: Pid)
        ensures
            pid@ == (PidView { node: node@, name: name@ }),
    {
        Pid { node, name }
    }

    /// Whether two addresses are the same address.
    pub fn same(&self, other: &Pid) -> (equal: bool)
        ensures
            equal == (self@ == other@),
    {
        self.node.same(&other.node) && self.name == other.name
    }
}

} // verus!
