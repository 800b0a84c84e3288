//! Core of a real-time multiplayer game host: the state document one session
//! owns, the patch-operation diff protocol, the capability surface a sandboxed
//! rule module sees, the session (lobby) state machine, and the per-connection
//! broadcast transport decisions.
//!
//! Everything here is pure logic over plain values; the network server around
//! it performs the I/O and feeds events in.

pub mod abi;
pub mod bundle;
pub mod diff;
pub mod engine;
pub mod hooks;
pub mod session;
pub mod state;
pub mod transport;
