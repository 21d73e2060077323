//! What is said to, and heard from, the component that tracks the cluster.

use vstd::prelude::*;
use crate::correlation_id::CorrelationId;
use crate::envelope::Envelope;
use crate::node_id::NodeId;

verus! {

/// What the cluster component reports of the membership.
#[derive(Debug, Clone, PartialEq)]
pub struct ClusterStatus {
    /// Every node known to belong to the cluster.
    pub members: Vec<NodeId>,
    /// The members to which a connection is established.
    pub connected: Vec<NodeId>,
}

/// A request to the cluster component.
#[derive(Debug, Clone, PartialEq)]
pub enum ClusterMsg<T> {
    Join(NodeId),
    Leave(NodeId),
    GetStatus(CorrelationId),
    Envelope(Envelope<T>),
    Shutdown,
}

} // verus!
