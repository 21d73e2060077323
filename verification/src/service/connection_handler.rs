//! The boundary between one wire protocol and the envelopes of the system.

use vstd::prelude::*;
use crate::correlation_id::CorrelationId;
use crate::envelope::Envelope;
use crate::pid::Pid;

verus! {

/// The endpoint of a single connection in a network server. A protocol
/// implements it to turn what its client sends into envelopes, and the
/// envelopes addressed to the connection into what its client is sent.
///
/// Both handlers only append to `out`: what it held stays, in its order.
/// They do no I/O; the transport happens outside.
pub trait ConnectionHandler: Sized {
    /// What the application's processes send in `Msg::User`.
    type Msg;

    /// What travels on the wire to and from the client.
    type ClientMsg;

    /// The handler for connection `id`, addressed as `pid`.
    fn new(pid: Pid, id: u64) -> Self;

    /// Handles an envelope addressed to this connection.
    fn handle_envelope(&mut self, envelope: Envelope<Self::Msg>, out: &mut Vec<ConnectionMsg<Self>>)
        ensures
            old(out)@.is_prefix_of(final(out)@),
    ;

    /// Handles a message that arrived from the client.
    fn handle_network_msg(&mut self, msg: Self::ClientMsg, out: &mut Vec<ConnectionMsg<Self>>)
        ensures
            old(out)@.is_prefix_of(final(out)@),
    ;
}

/// What a handler produces: an envelope for the rest of the system, or a
/// message for the client on the other end of the connection, with the
/// token of the request that it answers.
pub enum ConnectionMsg<C: ConnectionHandler> {
    Envelope(Envelope<C::Msg>),
    Client(C::ClientMsg, CorrelationId),
}

} // verus!
