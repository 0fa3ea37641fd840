//! Connections, streams and listeners over MsQuic, as state machines that decide what to ask of
//! MsQuic and whom to wake.

pub mod buffer;
pub mod connection;
pub mod http3;
pub mod keylog;
pub mod laws;
pub mod listener;
pub mod minimal;
pub mod registration;
pub mod status;
pub mod stream;
pub mod sync;
