use rabble::cluster::{ClusterMsg, ClusterStatus};
use rabble::correlation_id::CorrelationId;
use rabble::envelope::Envelope;
use rabble::histogram::{Histogram, TimeUnit};
use rabble::metrics::Metric;
use rabble::msg::Msg;
use rabble::node_id::NodeId;
use rabble::pid::Pid;

fn node_id(name: &str, addr: &str) -> NodeId {
    NodeId::new(name.to_string(), addr.to_string())
}

#[test]
fn node_ids_compare_by_name_and_address() {
    assert!(node_id("a", "x").same(&node_id("a", "x")));
    assert!(!node_id("a", "x").same(&node_id("b", "x")));
    assert!(!node_id("a", "x").same(&node_id("a", "y")));
    assert_eq!(node_id("a", "x"), node_id("a", "x").clone());
}

#[test]
fn pids_compare_by_node_and_name() {
    let p = Pid::new(node_id("a", "x"), "p".to_string());
    assert!(p.same(&p.clone()));
    assert!(!p.same(&Pid::new(node_id("a", "x"), "q".to_string())));
    assert!(!p.same(&Pid::new(node_id("b", "x"), "p".to_string())));
    assert_eq!(p.name, "p");
    assert_eq!(p.node, node_id("a", "x"));
}

#[test]
fn correlation_ids_compare_by_pid_and_tag() {
    let p = Pid::new(node_id("a", "x"), "p".to_string());
    let c = CorrelationId::new(p.clone(), 3);
    assert!(c.same(&c.clone()));
    assert!(!c.same(&CorrelationId::new(p.clone(), 4)));
    assert!(!c.same(&CorrelationId::new(Pid::new(node_id("a", "x"), "q".to_string()), 3)));
    assert_eq!(c.request_tag, 3);
}

#[test]
fn envelope_keeps_what_it_was_made_of() {
    let from = Pid::new(node_id("a", "x"), "p".to_string());
    let to = Pid::new(node_id("b", "y"), "q".to_string());
    let c = CorrelationId::new(from.clone(), 9);
    let envelope = Envelope::new(from.clone(), to.clone(), Msg::StartTimer(250), Some(c.clone()));
    assert_eq!(envelope.from, from);
    assert_eq!(envelope.to, to);
    assert_eq!(envelope.msg, Msg::<u8>::StartTimer(250));
    assert_eq!(envelope.correlation_id, Some(c));
}

#[test]
fn shutdown_notice_is_sent_in_the_targets_own_name() {
    let p = Pid::new(node_id("a", "x"), "p".to_string());
    let notice: Envelope<u8> = Envelope::shutdown_notice(&p);
    assert_eq!(notice, Envelope::new(p.clone(), p, Msg::Shutdown, None));
}

#[test]
fn messages_carry_metrics_and_status() {
    let mut hist = Histogram::new();
    hist.record(3).unwrap();
    let metrics: Msg<u8> = Msg::Metrics(vec![
        ("latency".to_string(), Metric::Histogram(TimeUnit::Microseconds, hist.clone())),
        ("requests".to_string(), Metric::Counter(12)),
        ("load".to_string(), Metric::Gauge(-4)),
    ]);
    assert_eq!(metrics.clone(), metrics);
    assert_ne!(metrics, Msg::GetMetrics);
    let status = ClusterStatus { members: vec![node_id("a", "x"), node_id("b", "y")], connected: vec![node_id("b", "y")] };
    let msg: Msg<u8> = Msg::ClusterStatus(status.clone());
    assert_eq!(msg, Msg::ClusterStatus(status));
    let cancel: Msg<u8> = Msg::CancelTimer(None);
    assert_ne!(cancel, Msg::Timeout);
    let join: ClusterMsg<u8> = ClusterMsg::Join(node_id("a", "x"));
    assert_ne!(join, ClusterMsg::Leave(node_id("a", "x")));
    assert_ne!(join, ClusterMsg::Shutdown);
}
