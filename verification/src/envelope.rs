//! The addressed unit of communication.

use vstd::prelude::*;
use crate::correlation_id::CorrelationId;
use crate::msg::Msg;
use crate::pid::{Pid, PidView};

verus! {

/// A message with its sender, its addressee and, where it belongs to a
/// request, the token of that request.
#[derive(Debug, Clone, PartialEq)]
pub struct Envelope<T> {
    pub from: Pid,
    pub to: Pid,
    pub msg: Msg<T>,
    pub correlation_id: Option<CorrelationId>,
}

impl<T> Envelope<T> {
    /// An envelope from `from` to `to`.
    pub fn new(from: Pid, to: Pid, msg: Msg<T>, correlation_id: Option<CorrelationId>) -> (envelope: Envelope<T>)
        ensures
            envelope == (Envelope { from, to, msg, correlation_id }),
    {
        Envelope { from, to, msg, correlation_id }
    }

    /// Whether this is the notice by which the registry tells the target at
    /// `pid` that the node shuts down: sent in that target's own name, with
    /// no request attached.
    pub open spec fn is_shutdown_notice(self, pid: PidView) -> bool {
        &&& self.from@ == pid
        &&& self.to@ == pid
        &&& self.msg is Shutdown
        &&& self.correlation_id is None
    }

    /// The shutdown notice for the target at `pid`.
    pub fn shutdown_notice(pid: &Pid) -> (envelope: Envelope<T>)
        ensures
            envelope.is_shutdown_notice(pid@),
    {
        Envelope { from: pid.clone(), to: pid.clone(), msg: Msg::Shutdown, correlation_id: None }
    }
}

} // verus!
