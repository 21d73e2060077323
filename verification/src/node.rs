//! The node: the one entry point for services and processes.

use vstd::prelude::*;
use vstd::string::StringExecFns;
use crate::channel::{Channel, ChannelView};
use crate::cluster::ClusterMsg;
use crate::correlation_id::CorrelationId;
use crate::envelope::Envelope;
use crate::errors::{Error, ErrorView};
use crate::node_id::{NodeId, NodeIdView};
use crate::pid::{Pid, PidView};
use crate::processes::{
    delivered, delivery, distinct, installed, next_for, notified, received, registry_of, Entry, Processes, Target,
    TargetKind,
};

verus! {

/// The name of a node as it appears in a description: its name, `@`, its address.
pub open spec fn node_text(node: NodeIdView) -> Seq<char> {
    node.name + "@"@ + node.addr
}

/// The description of a request to join `node`.
pub open spec fn join_description(node: NodeIdView) -> Seq<char> {
    "ClusterMsg::Join("@ + node_text(node) + ")"@
}

/// The description of a request to leave `node`.
pub open spec fn leave_description(node: NodeIdView) -> Seq<char> {
    "ClusterMsg::Leave("@ + node_text(node) + ")"@
}

/// What sending `msg` on the channel `cluster` returns, where a failure is
/// reported as a send failure with the given description and target.
pub open spec fn request_outcome<T>(
    cluster: ChannelView<ClusterMsg<T>>,
    description: Seq<char>,
    pid: Option<PidView>,
    r: Result<(), Error>,
) -> bool {
    if cluster.accepts() {
        r is Ok
    } else {
        r is Err && r->Err_0@ == (ErrorView::SendFailure { description, pid })
    }
}

/// Whether `after` is the channel `before` once it was offered a request to
/// join `node`.
pub open spec fn asked_to_join<T>(
    before: ChannelView<ClusterMsg<T>>,
    node: NodeIdView,
    after: ChannelView<ClusterMsg<T>>,
) -> bool {
    exists|request: ClusterMsg<T>|
        request is Join && request->Join_0@ == node && after == #[trigger] before.offered(request)
}

/// Whether `after` is the channel `before` once it was offered a request to
/// leave `node`.
pub open spec fn asked_to_leave<T>(
    before: ChannelView<ClusterMsg<T>>,
    node: NodeIdView,
    after: ChannelView<ClusterMsg<T>>,
) -> bool {
    exists|request: ClusterMsg<T>|
        request is Leave && request->Leave_0@ == node && after == #[trigger] before.offered(request)
}

/// Whether the envelope is addressed to a target on the node `id`.
pub open spec fn is_local<T>(id: NodeIdView, envelope: Envelope<T>) -> bool {
    envelope.to.node@ == id
}

/// What the node `id` returns for `envelope`: the registry's answer where
/// the envelope is local, else that of the cluster channel. An envelope that
/// is not taken comes back.
pub open spec fn routing<T>(
    id: NodeIdView,
    registry: Map<PidView, Target<T>>,
    cluster: ChannelView<ClusterMsg<T>>,
    envelope: Envelope<T>,
) -> Result<(), Envelope<T>> {
    if is_local(id, envelope) {
        delivery(registry, envelope)
    } else if cluster.accepts() {
        Ok(())
    } else {
        Err(envelope)
    }
}

/// The registry of the node `id` after `envelope` was sent.
pub open spec fn routed_registry<T>(id: NodeIdView, registry: Map<PidView, Target<T>>, envelope: Envelope<T>) -> Map<
    PidView,
    Target<T>,
> {
    if is_local(id, envelope) {
        delivered(registry, envelope)
    } else {
        registry
    }
}

/// The cluster channel of the node `id` after `envelope` was sent.
pub open spec fn routed_cluster<T>(
    id: NodeIdView,
    cluster: ChannelView<ClusterMsg<T>>,
    envelope: Envelope<T>,
) -> ChannelView<ClusterMsg<T>> {
    if is_local(id, envelope) {
        cluster
    } else {
        cluster.offered(ClusterMsg::Envelope(envelope))
    }
}

/// The addressee's node alone decides the route. A local envelope never
/// reaches the cluster channel. A remote envelope never touches the registry,
/// and is the newest on the cluster channel unless it came back.
pub proof fn law_route_by_node<T>(
    id: NodeIdView,
    registry: Map<PidView, Target<T>>,
    cluster: ChannelView<ClusterMsg<T>>,
    envelope: Envelope<T>,
)
    ensures
        envelope.to.node@ == id ==> routed_cluster(id, cluster, envelope) == cluster,
        envelope.to.node@ != id ==> routed_registry(id, registry, envelope) == registry,
        envelope.to.node@ != id ==> (match routing(id, registry, cluster, envelope) {
            Ok(()) => routed_cluster(id, cluster, envelope).queue == cluster.queue.push(ClusterMsg::Envelope(envelope)),
            Err(returned) => returned == envelope && routed_cluster(id, cluster, envelope) == cluster,
        }),
        envelope.to.node@ == id ==> (match routing(id, registry, cluster, envelope) {
            Ok(()) => routed_registry(id, registry, envelope)[envelope.to@].inbox.queue
                == registry[envelope.to@].inbox.queue.push(envelope),
            Err(returned) => returned == envelope && routed_registry(id, registry, envelope) == registry,
        }),
{
}

/// Once the registry is empty, as a shutdown leaves it, every local envelope
/// comes back, whatever the state of the cluster channel, and nothing
/// changes: no target of before can be reached.
pub proof fn law_nothing_local_after_shutdown<T>(
    id: NodeIdView,
    cluster: ChannelView<ClusterMsg<T>>,
    envelope: Envelope<T>,
)
    requires
        envelope.to.node@ == id,
    ensures
        routing(id, Map::<PidView, Target<T>>::empty(), cluster, envelope) == Err::<(), Envelope<T>>(envelope),
        routed_registry(id, Map::<PidView, Target<T>>::empty(), envelope) == Map::<PidView, Target<T>>::empty(),
        routed_cluster(id, cluster, envelope) == cluster,
{
}

/// On an unbounded cluster channel a closed channel is the only failure of a
/// remote send: while the channel is open the envelope is taken and is the
/// newest on it; once it is closed the envelope comes back.
pub proof fn law_remote_send_fails_only_when_closed<T>(
    id: NodeIdView,
    registry: Map<PidView, Target<T>>,
    cluster: ChannelView<ClusterMsg<T>>,
    envelope: Envelope<T>,
)
    requires
        cluster.capacity is None,
        envelope.to.node@ != id,
    ensures
        cluster.open ==> routing(id, registry, cluster, envelope) == Ok::<(), Envelope<T>>(()) && routed_cluster(
            id,
            cluster,
            envelope,
        ) == cluster.with(ClusterMsg::Envelope(envelope)),
        !cluster.open ==> routing(id, registry, cluster, envelope) == Err::<(), Envelope<T>>(envelope)
            && routed_cluster(id, cluster, envelope) == cluster,
{
}

/// A node: its identifier, the registry of its targets and the channel to
/// the cluster component.
#[derive(Debug)]
pub struct Node<T> {
    pub id: NodeId,
    processes: Processes<T>,
    cluster: Channel<ClusterMsg<T>>,
}

impl<T> Node<T> {
    /// Whether the node is well formed: so is its registry, and its cluster
    /// channel has no capacity, so that it takes every request while it is open.
    pub closed spec fn wf(&self) -> bool {
        self.processes.wf() && self.cluster@.capacity is None
    }

    /// A well-formed node's cluster channel is unbounded.
    pub proof fn lemma_cluster_unbounded(&self)
        requires
            self.wf(),
        ensures
            self.cluster().capacity is None,
            self.cluster().accepts() == self.cluster().open,
    {
    }

    /// The identifier of this node.
    pub closed spec fn name(&self) -> NodeIdView {
        self.id@
    }

    /// The targets registered on this node.
    pub closed spec fn registry(&self) -> Map<PidView, Target<T>> {
        self.processes@
    }

    /// The channel to the cluster component.
    pub closed spec fn cluster(&self) -> ChannelView<ClusterMsg<T>> {
        self.cluster@
    }

    /// A node named `id` over the given registry. Its channel to the cluster
    /// component is open, empty and unbounded.
    pub fn new(id: NodeId, processes: Processes<T>) -> (node: Node<T>)
        requires
            processes.wf(),
        ensures
            node.wf(),
            node.name() == id@,
            node.registry() == processes@,
            node.cluster() == (ChannelView { queue: Seq::<ClusterMsg<T>>::empty(), capacity: None, open: true }),
    {
        Node { id, processes, cluster: Channel::unbounded() }
    }

    /// The identifier of this node.
    pub fn id(&self) -> (id: &NodeId)
        ensures
            id@ == self.name(),
    {
        &self.id
    }

    /// Closes the channel to the cluster component, as when that component
    /// has gone: from now on no request and no remote envelope is taken.
    /// What waits on the channel can still be taken off.
    pub fn close_cluster(&mut self)
        requires
            old(self).wf(),
        ensures
            final(self).wf(),
            final(self).name() == old(self).name(),
            final(self).registry() == old(self).registry(),
            final(self).cluster() == (ChannelView { open: false, ..old(self).cluster() }),
    {
        self.cluster.close();
    }

    /// The text `name@addr` of a node identifier.
    fn node_name(node_id: &NodeId, text: &mut String)
        ensures
            final(text)@ == old(text)@ + node_text(node_id@),
    {
        text.append(node_id.name.as_str());
        text.append("@");
        text.append(node_id.addr.as_str());
        assert(text@ =~= old(text)@ + node_text(node_id@));
    }

    /// Asks the cluster component to join this node with `node_id`. The
    /// request is only enqueued: joining goes on after the call returns.
    pub fn join(&mut self, node_id: &NodeId) -> (r: Result<(), Error>)
        requires
            old(self).wf(),
        ensures
            final(self).wf(),
            final(self).name() == old(self).name(),
            final(self).registry() == old(self).registry(),
            asked_to_join(old(self).cluster(), node_id@, final(self).cluster()),
            request_outcome(old(self).cluster(), join_description(node_id@), None, r),
    {
        let request = ClusterMsg::Join(node_id.clone());
        let r = self.cluster.send(request);
        assert(self.cluster@ == old(self).cluster@.offered(request));
        match r {
            Ok(()) => Ok(()),
            Err(_) => {
                let mut description = String::from_str("ClusterMsg::Join(");
                Self::node_name(node_id, &mut description);
                description.append(")");
                assert(description@ =~= join_description(node_id@));
                Err(Error::SendFailure { description, pid: None })
            },
        }
    }

    /// Asks the cluster component to remove `node_id` from the cluster.
    pub fn leave(&mut self, node_id: &NodeId) -> (r: Result<(), Error>)
        requires
            old(self).wf(),
        ensures
            final(self).wf(),
            final(self).name() == old(self).name(),
            final(self).registry() == old(self).registry(),
            asked_to_leave(old(self).cluster(), node_id@, final(self).cluster()),
            request_outcome(old(self).cluster(), leave_description(node_id@), None, r),
    {
        let request = ClusterMsg::Leave(node_id.clone());
        let r = self.cluster.send(request);
        assert(self.cluster@ == old(self).cluster@.offered(request));
        match r {
            Ok(()) => Ok(()),
            Err(_) => {
                let mut description = String::from_str("ClusterMsg::Leave(");
                Self::node_name(node_id, &mut description);
                description.append(")");
                assert(description@ =~= leave_description(node_id@));
                Err(Error::SendFailure { description, pid: None })
            },
        }
    }

    /// Registers a process at `pid` in the registry.
    pub fn spawn(&mut self, pid: Pid, inbox: Channel<Envelope<T>>) -> (r: Result<(), Error>)
        requires
            old(self).wf(),
        ensures
            final(self).wf(),
            final(self).name() == old(self).name(),
            final(self).cluster() == old(self).cluster(),
            r is Err <==> old(self).registry().contains_key(pid@),
            r is Err ==> r->Err_0@ == (ErrorView::SpawnConflict { description: "Failed to spawn process"@, pid: pid@ }),
            final(self).registry() == installed(
                old(self).registry(),
                pid@,
                Target { kind: TargetKind::Process, inbox: inbox@ },
            ),
    {
        match self.processes.spawn(pid, inbox) {
            Ok(()) => Ok(()),
            Err(conflict) => Err(
                Error::SpawnConflict { description: String::from_str("Failed to spawn process"), pid: conflict.pid },
            ),
        }
    }

    /// Removes the target at `pid` from the registry, if there is one.
    /// Stopping what is not registered is no failure.
    pub fn stop(&mut self, pid: &Pid) -> (r: Result<(), Error>)
        requires
            old(self).wf(),
        ensures
            final(self).wf(),
            final(self).name() == old(self).name(),
            final(self).cluster() == old(self).cluster(),
            final(self).registry() == old(self).registry().remove(pid@),
            r is Ok,
    {
        self.processes.kill(pid);
        Ok(())
    }

    /// Registers the channel of a service at `pid` in the registry.
    pub fn register_service(&mut self, pid: Pid, inbox: Channel<Envelope<T>>) -> (r: Result<(), Error>)
        requires
            old(self).wf(),
        ensures
            final(self).wf(),
            final(self).name() == old(self).name(),
            final(self).cluster() == old(self).cluster(),
            r is Err <==> old(self).registry().contains_key(pid@),
            r is Err ==> r->Err_0@ == (ErrorView::SpawnConflict { description: "Failed to register service"@, pid: pid@ }),
            final(self).registry() == installed(
                old(self).registry(),
                pid@,
                Target { kind: TargetKind::Service, inbox: inbox@ },
            ),
    {
        match self.processes.register_service(pid, inbox) {
            Ok(()) => Ok(()),
            Err(conflict) => Err(
                Error::SpawnConflict {
                    description: String::from_str("Failed to register service"),
                    pid: conflict.pid,
                },
            ),
        }
    }

    /// Sends an envelope to its receiver: into the registry where it is
    /// addressed to this node, else onto the cluster channel, to be
    /// forwarded. An envelope that is not taken comes back to the caller.
    pub fn send(&mut self, envelope: Envelope<T>) -> (r: Result<(), Envelope<T>>)
        requires
            old(self).wf(),
        ensures
            final(self).wf(),
            final(self).name() == old(self).name(),
            r == routing(old(self).name(), old(self).registry(), old(self).cluster(), envelope),
            final(self).registry() == routed_registry(old(self).name(), old(self).registry(), envelope),
            final(self).cluster() == routed_cluster(old(self).name(), old(self).cluster(), envelope),
    {
        if envelope.to.node.same(&self.id) {
            self.processes.send(envelope)
        } else {
            match self.cluster.send(ClusterMsg::Envelope(envelope)) {
                Ok(()) => Ok(()),
                Err(ClusterMsg::Envelope(returned)) => Err(returned),
                Err(_) => {
                    proof {
                        assert(false);
                    }
                    vstd::pervasive::unreached()
                },
            }
        }
    }
    /// Asks the cluster component for its status. The report arrives later,
    /// in an envelope addressed to the process that `correlation_id` names.
    pub fn cluster_status(&mut self, correlation_id: CorrelationId) -> (r: Result<(), Error>)
        requires
            old(self).wf(),
        ensures
            final(self).wf(),
            final(self).name() == old(self).name(),
            final(self).registry() == old(self).registry(),
            final(self).cluster() == old(self).cluster().offered(ClusterMsg::GetStatus(correlation_id)),
            request_outcome(old(self).cluster(), "ClusterMsg::GetStatus"@, Some(correlation_id.pid@), r),
    {
        let to = correlation_id.pid.clone();
        match self.cluster.send(ClusterMsg::GetStatus(correlation_id)) {
            Ok(()) => Ok(()),
            Err(_) => Err(
                Error::SendFailure { description: String::from_str("ClusterMsg::GetStatus"), pid: Some(to) },
            ),
        }
    }

    /// Shuts the node down: first the cluster component is told to stop, so
    /// that it forwards no more, then the registry is shut down. The targets
    /// come back as the registry's `shutdown` hands them out. A cluster
    /// channel that is closed takes no request, and the registry is shut
    /// down all the same.
    pub fn shutdown(&mut self) -> (drained: Vec<Entry<T>>)
        requires
            old(self).wf(),
        ensures
            final(self).wf(),
            final(self).name() == old(self).name(),
            final(self).cluster() == old(self).cluster().offered(ClusterMsg::Shutdown),
            final(self).registry() == Map::<PidView, Target<T>>::empty(),
            distinct(drained@),
            registry_of(drained@).dom() == old(self).registry().dom(),
            forall|pid: PidView| #[trigger]
                old(self).registry().contains_key(pid) ==> notified(
                    old(self).registry()[pid],
                    registry_of(drained@)[pid],
                    pid,
                ),
    {
        let _ = self.cluster.send(ClusterMsg::Shutdown);
        self.processes.shutdown()
    }

    /// Whether the cluster channel would take a request now.
    pub fn cluster_accepts(&self) -> (free: bool)
        ensures
            free == self.cluster().accepts(),
    {
        self.cluster.accepts()
    }

    /// Whether `pid` is registered on this node.
    pub fn is_registered(&self, pid: &Pid) -> (registered: bool)
        ensures
            registered == self.registry().contains_key(pid@),
    {
        self.processes.contains(pid)
    }

    /// Takes the oldest request off the cluster channel, for the cluster
    /// component to act on.
    pub fn next_cluster_msg(&mut self) -> (r: Option<ClusterMsg<T>>)
        requires
            old(self).wf(),
        ensures
            final(self).wf(),
            final(self).name() == old(self).name(),
            final(self).registry() == old(self).registry(),
            r == old(self).cluster().front(),
            final(self).cluster() == old(self).cluster().advanced(),
    {
        self.cluster.recv()
    }

    /// Takes the oldest envelope out of the inbox of the target at `pid`, for
    /// that target to handle.
    pub fn receive(&mut self, pid: &Pid) -> (r: Option<Envelope<T>>)
        requires
            old(self).wf(),
        ensures
            final(self).wf(),
            final(self).name() == old(self).name(),
            final(self).cluster() == old(self).cluster(),
            r == next_for(old(self).registry(), pid@),
            final(self).registry() == received(old(self).registry(), pid@),
    {
        self.processes.receive(pid)
    }
}

} // verus!