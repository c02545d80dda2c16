//! Core of a WebSocket-to-serial bridge: the command protocol, the
//! connection state machine, the poll-cycle and heartbeat decisions, and a
//! simulated serial device the properties are proved and tested against.
//!
//! All device and network I/O lives outside this crate; the functions here
//! take the outcomes of those calls as plain values and decide what the
//! bridge does next.

pub mod bridge;
pub mod heartbeat;
pub mod laws;
pub mod protocol;
pub mod sim;
