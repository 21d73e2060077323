use rabble::correlation_id::CorrelationId;
use rabble::envelope::Envelope;
use rabble::msg::Msg;
use rabble::node_id::NodeId;
use rabble::pid::Pid;
use rabble::timers::Timers;

fn pid(name: &str) -> Pid {
    Pid::new(NodeId::new("node1".to_string(), "127.0.0.1:5000".to_string()), name.to_string())
}

fn token(name: &str, tag: u64) -> CorrelationId {
    CorrelationId::new(pid(name), tag)
}

#[test]
fn started_timer_yields_exactly_one_timeout() {
    let mut timers = Timers::new();
    assert!(timers.start(token("A", 1)));
    assert!(timers.is_running(&token("A", 1)));
    let timeout: Option<Envelope<u8>> = timers.resolve(&token("A", 1));
    assert_eq!(timeout, Some(Envelope::new(pid("A"), pid("A"), Msg::Timeout, Some(token("A", 1)))));
    assert!(!timers.is_running(&token("A", 1)));
    let again: Option<Envelope<u8>> = timers.resolve(&token("A", 1));
    assert_eq!(again, None);
}

#[test]
fn canceled_timer_yields_no_timeout() {
    let mut timers = Timers::new();
    timers.start(token("A", 1));
    timers.start(token("A", 2));
    timers.cancel(&pid("A"), &Some(token("A", 1)));
    let canceled: Option<Envelope<u8>> = timers.resolve(&token("A", 1));
    assert_eq!(canceled, None);
    let other: Option<Envelope<u8>> = timers.resolve(&token("A", 2));
    assert_eq!(other, Some(Envelope::new(pid("A"), pid("A"), Msg::Timeout, Some(token("A", 2)))));
}

#[test]
fn cancel_without_a_token_cancels_all_timers_of_the_owner() {
    let mut timers = Timers::new();
    timers.start(token("A", 1));
    timers.start(token("A", 2));
    timers.start(token("B", 1));
    timers.cancel(&pid("A"), &None);
    assert!(!timers.is_running(&token("A", 1)));
    assert!(!timers.is_running(&token("A", 2)));
    assert!(timers.is_running(&token("B", 1)));
}

#[test]
fn starting_a_running_timer_starts_no_second_one() {
    let mut timers = Timers::new();
    assert!(timers.start(token("A", 1)));
    assert!(!timers.start(token("A", 1)));
    let first: Option<Envelope<u8>> = timers.resolve(&token("A", 1));
    assert!(first.is_some());
    let second: Option<Envelope<u8>> = timers.resolve(&token("A", 1));
    assert_eq!(second, None);
}

#[test]
fn stale_token_matches_nothing_until_it_is_started_again() {
    let mut timers = Timers::new();
    timers.start(token("A", 1));
    let _: Option<Envelope<u8>> = timers.resolve(&token("A", 1));
    let stale: Option<Envelope<u8>> = timers.resolve(&token("A", 1));
    assert_eq!(stale, None);
    assert!(timers.start(token("A", 1)));
    let fresh: Option<Envelope<u8>> = timers.resolve(&token("A", 1));
    assert!(fresh.is_some());
}
