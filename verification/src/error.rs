//! What can go wrong in the session engine and in the state machine.

use vstd::prelude::*;

verus! {

/// Errors of the session engine.
#[derive(Clone, Copy, Debug, PartialEq, Eq, Structural)]
pub enum TinyMqttError {
    /// The transport failed to connect, read or write, or timed out.
    Transport,
    /// The packet does not fit the fixed buffer.
    Encode,
    /// The frame is malformed.
    Decode,
    /// The bounded queue holds as many packets as it can.
    QueueFull,
}

/// Errors of the connectivity state machine.
#[derive(Clone, Copy, Debug, PartialEq, Eq, Structural)]
pub enum FsmError {
    /// The credentials are malformed or missing.
    Provisioning,
    /// The event means nothing in the current state; it was dropped.
    State,
}

} // verus!
