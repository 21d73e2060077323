//! What a network service plugs into the node.

pub mod connection_handler;
