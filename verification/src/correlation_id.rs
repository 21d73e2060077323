//! The token that leads a reply back to the request it answers.

use vstd::prelude::*;
use crate::pid::{Pid, PidView};

verus! {

/// What a [`CorrelationId`] stands for.
pub struct CorrelationIdView {
    pub pid: PidView,
    pub request_tag: u64,
}

/// Names the process or connection that issued a request, and which of its
/// requests it was. It is carried unchanged through every hop, so that a
/// timeout, a status report or a network reply finds its originator.
#[derive(Debug, PartialEq, Eq, Hash)]
pub struct CorrelationId {
    pub pid: Pid,
    pub request_tag: u64,
}

impl View for CorrelationId {
    type V = CorrelationIdView;

    open spec fn view(&self) -> CorrelationIdView {
        CorrelationIdView { pid: self.pid@, request_tag: self.request_tag }
    }
}

impl Clone for CorrelationId {
    fn clone(&self) -> (copy: CorrelationId)
        ensures
            copy@ == self@,
    {
        CorrelationId { pid: self.pid.clone(), request_tag: self.request_tag }
    }
}

impl CorrelationId {
    /// The token of request `request_tag` of `pid`.
    pub fn new(pid: Pid, request_tag: u64) -> (id: CorrelationId)
        ensures
            id@ == (CorrelationIdView { pid: pid@, request_tag }),
    {
        CorrelationId { pid, request_tag }
    }

    /// Whether two tokens name the same request.
    pub fn same(&self, other: &CorrelationId) -> (equal: bool)
        ensures
            equal == (self@ == other@),
    {
        self.pid.same(&other.pid) && self.request_tag == other.request_tag
    }
}

} // verus!
