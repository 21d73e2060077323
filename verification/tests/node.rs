use rabble::channel::Channel;
use rabble::cluster::ClusterMsg;
use rabble::correlation_id::CorrelationId;
use rabble::envelope::Envelope;
use rabble::errors::Error;
use rabble::msg::Msg;
use rabble::node::Node;
use rabble::node_id::NodeId;
use rabble::pid::Pid;
use rabble::processes::Processes;

fn node_id(name: &str) -> NodeId {
    NodeId::new(name.to_string(), "127.0.0.1:5000".to_string())
}

fn pid_on(node: &str, name: &str) -> Pid {
    Pid::new(node_id(node), name.to_string())
}

fn node() -> Node<String> {
    Node::new(node_id("node1"), Processes::new())
}

fn node_without_cluster() -> Node<String> {
    let mut node = node();
    node.close_cluster();
    node
}

fn hello(from: Pid, to: Pid) -> Envelope<String> {
    Envelope::new(from, to, Msg::User("hello".to_string()), None)
}

#[test]
fn local_envelope_goes_to_the_registry_only() {
    let mut node = node();
    node.spawn(pid_on("node1", "A"), Channel::unbounded()).unwrap();
    let envelope = hello(pid_on("node2", "X"), pid_on("node1", "A"));
    assert_eq!(node.send(envelope.clone()), Ok(()));
    assert_eq!(node.next_cluster_msg(), None);
    assert_eq!(node.receive(&pid_on("node1", "A")), Some(envelope));
}

#[test]
fn remote_envelope_goes_to_the_cluster_channel_only() {
    let mut node = node();
    // the same name is registered locally; the node of the address decides
    node.spawn(pid_on("node1", "A"), Channel::unbounded()).unwrap();
    let envelope = hello(pid_on("node1", "A"), pid_on("node2", "A"));
    assert_eq!(node.send(envelope.clone()), Ok(()));
    assert_eq!(node.receive(&pid_on("node1", "A")), None);
    assert_eq!(node.next_cluster_msg(), Some(ClusterMsg::Envelope(envelope)));
    assert_eq!(node.next_cluster_msg(), None);
}

#[test]
fn local_envelope_to_nobody_comes_back() {
    let mut node = node();
    let envelope = hello(pid_on("node1", "A"), pid_on("node1", "nobody"));
    assert_eq!(node.send(envelope.clone()), Err(envelope));
    assert_eq!(node.next_cluster_msg(), None);
}

#[test]
fn remote_envelope_comes_back_when_the_cluster_channel_is_closed() {
    let mut node = node_without_cluster();
    let envelope = hello(pid_on("node1", "A"), pid_on("node2", "B"));
    assert_eq!(node.send(envelope.clone()), Err(envelope));
    assert_eq!(node.next_cluster_msg(), None);
}

#[test]
fn join_and_leave_are_enqueued_in_order() {
    let mut node = node();
    assert_eq!(node.join(&node_id("node2")), Ok(()));
    assert_eq!(node.leave(&node_id("node3")), Ok(()));
    assert_eq!(node.next_cluster_msg(), Some(ClusterMsg::Join(node_id("node2"))));
    assert_eq!(node.next_cluster_msg(), Some(ClusterMsg::Leave(node_id("node3"))));
    assert_eq!(node.next_cluster_msg(), None);
}

#[test]
fn join_fails_with_a_description_when_the_cluster_channel_is_closed() {
    let mut node = node_without_cluster();
    assert_eq!(
        node.join(&node_id("node2")),
        Err(Error::SendFailure { description: "ClusterMsg::Join(node2@127.0.0.1:5000)".to_string(), pid: None })
    );
    assert_eq!(
        node.leave(&node_id("node2")),
        Err(Error::SendFailure { description: "ClusterMsg::Leave(node2@127.0.0.1:5000)".to_string(), pid: None })
    );
}

#[test]
fn cluster_status_carries_the_correlation_id() {
    let mut node = node();
    let id = CorrelationId::new(pid_on("node1", "A"), 7);
    assert_eq!(node.cluster_status(id.clone()), Ok(()));
    assert_eq!(node.next_cluster_msg(), Some(ClusterMsg::GetStatus(id)));
}

#[test]
fn cluster_status_failure_names_the_requester() {
    let mut node = node_without_cluster();
    let id = CorrelationId::new(pid_on("node1", "A"), 7);
    let error = node.cluster_status(id).unwrap_err();
    assert_eq!(
        error,
        Error::SendFailure { description: "ClusterMsg::GetStatus".to_string(), pid: Some(pid_on("node1", "A")) }
    );
    assert_eq!(error.description(), "ClusterMsg::GetStatus");
}

#[test]
fn spawn_conflict_is_reported() {
    let mut node = node();
    assert_eq!(node.spawn(pid_on("node1", "A"), Channel::unbounded()), Ok(()));
    assert_eq!(
        node.spawn(pid_on("node1", "A"), Channel::unbounded()),
        Err(Error::SpawnConflict { description: "Failed to spawn process".to_string(), pid: pid_on("node1", "A") })
    );
    assert_eq!(
        node.register_service(pid_on("node1", "A"), Channel::unbounded()),
        Err(Error::SpawnConflict {
            description: "Failed to register service".to_string(),
            pid: pid_on("node1", "A")
        })
    );
    assert!(node.is_registered(&pid_on("node1", "A")));
    assert_eq!(node.register_service(pid_on("node1", "S"), Channel::unbounded()), Ok(()));
    assert!(node.is_registered(&pid_on("node1", "S")));
}

#[test]
fn stop_is_no_failure_for_an_absent_pid() {
    let mut node = node();
    node.spawn(pid_on("node1", "A"), Channel::unbounded()).unwrap();
    assert_eq!(node.stop(&pid_on("node1", "B")), Ok(()));
    assert!(node.is_registered(&pid_on("node1", "A")));
    assert_eq!(node.stop(&pid_on("node1", "A")), Ok(()));
    assert!(!node.is_registered(&pid_on("node1", "A")));
    assert_eq!(node.stop(&pid_on("node1", "A")), Ok(()));
}

#[test]
fn shutdown_tells_the_cluster_first_and_then_the_targets() {
    let mut node = node();
    node.spawn(pid_on("node1", "A"), Channel::unbounded()).unwrap();
    node.join(&node_id("node2")).unwrap();
    assert!(node.cluster_accepts());
    let mut drained = node.shutdown();
    assert_eq!(node.next_cluster_msg(), Some(ClusterMsg::Join(node_id("node2"))));
    assert_eq!(node.next_cluster_msg(), Some(ClusterMsg::Shutdown));
    assert_eq!(node.next_cluster_msg(), None);
    assert_eq!(drained.len(), 1);
    assert_eq!(drained[0].pid, pid_on("node1", "A"));
    assert_eq!(
        drained[0].inbox.recv(),
        Some(Envelope::new(pid_on("node1", "A"), pid_on("node1", "A"), Msg::Shutdown, None))
    );
    // nothing is registered any more
    let envelope = hello(pid_on("node1", "B"), pid_on("node1", "A"));
    assert_eq!(node.send(envelope.clone()), Err(envelope));
    assert!(!node.is_registered(&pid_on("node1", "A")));
}

#[test]
fn shutdown_with_a_closed_cluster_channel_still_shuts_the_registry_down() {
    let mut node = node_without_cluster();
    node.spawn(pid_on("node1", "A"), Channel::unbounded()).unwrap();
    node.register_service(pid_on("node1", "S"), Channel::unbounded()).unwrap();
    assert!(!node.cluster_accepts());
    let mut drained = node.shutdown();
    assert_eq!(node.next_cluster_msg(), None);
    assert_eq!(drained.len(), 2);
    for entry in drained.iter_mut() {
        let notice = Envelope::new(entry.pid.clone(), entry.pid.clone(), Msg::Shutdown, None);
        assert_eq!(entry.inbox.recv(), Some(notice));
        assert_eq!(entry.inbox.recv(), None);
    }
    assert!(!node.is_registered(&pid_on("node1", "A")));
    assert!(!node.is_registered(&pid_on("node1", "S")));
    let envelope = hello(pid_on("node1", "S"), pid_on("node1", "A"));
    assert_eq!(node.send(envelope.clone()), Err(envelope));
}

#[test]
fn spawn_after_shutdown_is_fresh() {
    let mut node = node();
    node.spawn(pid_on("node1", "A"), Channel::unbounded()).unwrap();
    node.send(hello(pid_on("node1", "B"), pid_on("node1", "A"))).unwrap();
    let drained = node.shutdown();
    assert_eq!(drained.len(), 1);
    assert_eq!(node.spawn(pid_on("node1", "A"), Channel::unbounded()), Ok(()));
    // the new target starts empty and is the one that receives
    assert_eq!(node.receive(&pid_on("node1", "A")), None);
    let envelope = hello(pid_on("node1", "B"), pid_on("node1", "A"));
    assert_eq!(node.send(envelope.clone()), Ok(()));
    assert_eq!(node.receive(&pid_on("node1", "A")), Some(envelope));
    assert_eq!(drained[0].inbox.len(), 2);
}

#[test]
fn closing_the_cluster_channel_keeps_what_waits_on_it() {
    let mut node = node();
    node.join(&node_id("node2")).unwrap();
    node.close_cluster();
    assert!(!node.cluster_accepts());
    let envelope = hello(pid_on("node1", "A"), pid_on("node2", "B"));
    assert_eq!(node.send(envelope.clone()), Err(envelope));
    assert_eq!(node.next_cluster_msg(), Some(ClusterMsg::Join(node_id("node2"))));
    assert_eq!(node.next_cluster_msg(), None);
}

#[test]
fn remote_sends_are_all_taken_while_the_cluster_channel_is_open() {
    let mut node = node();
    for i in 0..1000 {
        let envelope = Envelope::new(pid_on("node1", "A"), pid_on("node2", "B"), Msg::User(i.to_string()), None);
        assert_eq!(node.send(envelope), Ok(()));
    }
    for i in 0..1000 {
        let envelope = Envelope::new(pid_on("node1", "A"), pid_on("node2", "B"), Msg::User(i.to_string()), None);
        assert_eq!(node.next_cluster_msg(), Some(ClusterMsg::Envelope(envelope)));
    }
    assert_eq!(node.next_cluster_msg(), None);
}

#[test]
fn node_keeps_its_id() {
    let node = node();
    assert_eq!(node.id, node_id("node1"));
    assert_eq!(node.id(), &node_id("node1"));
    assert!(node.id.same(&node_id("node1")));
    assert!(!node.id.same(&node_id("node2")));
}
