//! Routing and lifecycle core of a small distributed actor runtime.
//!
//! Processes and services are addressed by [`pid::Pid`]. Every message travels
//! in an [`envelope::Envelope`], which [`node::Node`] routes either to the
//! local [`processes::Processes`] registry or onto the channel read by the
//! cluster component.

pub mod node_id;
pub mod pid;
pub mod correlation_id;
pub mod channel;
pub mod metrics;
pub mod msg;
pub mod envelope;
pub mod cluster;
pub mod processes;
pub mod errors;
pub mod node;
pub mod timers;
pub mod service;
pub mod histogram;
