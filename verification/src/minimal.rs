//! A smaller set of connections, streams and listeners: one queue for all streams that a peer
//! opens, no datagrams, and no events.
pub mod connection;
pub mod listener;
pub mod stream;
