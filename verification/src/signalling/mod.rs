//! The signalling server and the protocol that it answers errors in.
pub mod protocol;
pub mod server;
