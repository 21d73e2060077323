//! Every shape of message that flows through the system.

use vstd::prelude::*;
use crate::cluster::ClusterStatus;
use crate::correlation_id::CorrelationId;
use crate::metrics::Metric;

verus! {

/// The payload of an envelope: the fixed control messages, and `User` for
/// whatever the application sends.
#[derive(Debug, Clone, PartialEq)]
pub enum Msg<T> {
    User(T),
    ClusterStatus(ClusterStatus),
    /// Start a timer; the time is in milliseconds.
    StartTimer(usize),
    CancelTimer(Option<CorrelationId>),
    Timeout,
    Shutdown,
    GetMetrics,
    Metrics(Vec<(String, Metric)>),
}

} // verus!
