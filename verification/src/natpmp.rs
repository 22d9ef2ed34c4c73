//! The failures of the NAT Port Mapping Protocol.

use vstd::prelude::*;

use crate::failures::SocketError;

verus! {

/// Errors that may occur when trying to map a port on the gateway using NAT-PMP.
#[derive(Debug)]
pub enum Failure {
    /// Failed to use a UDP socket to communicate with the gateway.
    Socket(SocketError),

    /// The gateway was unreachable within the timeout.
    Timeout,

    /// The gateway did not give a valid response according to the NAT-PMP protocol.
    InvalidResponse(String),

    /// The server does not support the protocol version, and answered with its own.
    UnsupportedVersion(u8),

    /// The server did not authorize the operation.
    NotAuthorized,

    /// The gateway has no external address.
    NetworkFailure,

    /// The gateway does not have the resources for a mapping.
    OutOfResources,

    /// The server does not support the requested operation.
    UnsupportedOpcode,
}

} // verus!
