use vstd::prelude::*;
use crate::rewrite::Direction;

verus! {

/// The failures the bridge can meet. Port resolution and connection
/// failures are fatal at startup; a send failure is reported and the route
/// continues with the next event.
#[derive(Debug)]
pub enum BridgeError {
    /// No available port carries the wanted name.
    PortNotFound { name: String },
    /// Opening the connection pair of a route failed.
    ConnectionFailed { dir: Direction },
    /// Sending one event's output failed on a route.
    SendFailed { dir: Direction, bytes: Vec<u8> },
    /// Any other failure, described by a plain message.
    Other { message: String },
}

/// Wraps a plain message into a bridge error.
pub fn exn(message: String) -> (e: BridgeError)
    ensures
        (e matches BridgeError::Other { message: m } && m == message),
{
    BridgeError::Other { message }
}

} // verus!
