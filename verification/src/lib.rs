//! Rendezvous and call-coordination core: pairs two peers who share a room
//! token, drives UDP endpoint discovery with a bounded retry budget, and then
//! either exchanges the discovered addresses (direct mode) or plans the
//! forwarding of datagrams between the two peers (relay mode).
//!
//! All socket and channel I/O lives outside this crate; the functions here
//! take plain values (bytes read, probe observations) and return plain values
//! (bytes to write, forwarding plans, state transitions).

pub mod client;
pub mod coordinator;
pub mod registry;
pub mod settings;
pub mod token;
pub mod wire;
