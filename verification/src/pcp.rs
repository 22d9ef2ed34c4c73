//! The sessions and failures of the Port Control Protocol.

use vstd::prelude::*;

use crate::failures::SocketError;

verus! {

/// The 96-bit nonce which identifies a session with a PCP server.
pub type Nonce = [u32; 3];

/// Errors that may occur when trying to map a port on the gateway using PCP. Errors which a
/// server estimates to persist for a time carry that time in seconds.
#[derive(Debug)]
pub enum Failure {
    /// Failed to use a UDP socket to communicate with the gateway.
    Socket(SocketError),

    /// The gateway was unreachable within the timeout.
    Timeout,

    /// The gateway did not give a valid response according to the PCP protocol.
    InvalidResponse(String),

    /// The server does not support the protocol version, and answered with its own.
    UnsupportedVersion(u8),

    /// The response does not carry the nonce of the request.
    Nonce,

    /// The server could not parse the request.
    MalformedRequest,

    /// The server did not authorize the operation.
    NotAuthorized(u32),

    /// The client address in the request does not match the address the server saw.
    AddressMismatch,

    /// The server does not support the requested operation.
    UnsupportedOpcode,

    /// The server does not support a mandatory option of the request.
    UnsupportedOption,

    /// The server could not parse an option of the request.
    MalformedOption,

    /// The server does not support mapping ports for the protocol.
    UnsupportedProtocol,

    /// The gateway, or the network, is experiencing a failure.
    NetworkFailure(u32),

    /// The gateway does not have the resources for a mapping.
    NoResources(u32),

    /// The client has used up its quota of mappings.
    UserExceededQuota(u32),

    /// The server cannot provide the requested external port or address.
    CannotProvideExternal(u32),

    /// The server cannot create the filters of the request.
    ExcessiveRemotePeers,
}

impl Failure {
    /// The number of seconds the server estimated its error will persist, when it reported one.
    pub open spec fn spec_retry_after_seconds(self) -> Option<u32> {
        match self {
            Failure::NotAuthorized(seconds) => Some(seconds),
            Failure::NetworkFailure(seconds) => Some(seconds),
            Failure::NoResources(seconds) => Some(seconds),
            Failure::UserExceededQuota(seconds) => Some(seconds),
            Failure::CannotProvideExternal(seconds) => Some(seconds),
            _ => None,
        }
    }

    /// The number of seconds the server estimated its error will persist, when it reported one.
    pub fn retry_after_seconds(&self) -> (seconds: Option<u32>)
        ensures
            seconds == self.spec_retry_after_seconds(),
    {
        match self {
            Failure::NotAuthorized(seconds) => Some(*seconds),
            Failure::NetworkFailure(seconds) => Some(*seconds),
            Failure::NoResources(seconds) => Some(*seconds),
            Failure::UserExceededQuota(seconds) => Some(*seconds),
            Failure::CannotProvideExternal(seconds) => Some(*seconds),
            _ => None,
        }
    }
}

/// An estimate of how long an error will persist is given exactly for the errors that carry one,
/// and it is the one they carry.
pub proof fn law_estimates_are_given(failure: Failure, seconds: u32)
    ensures
        failure.spec_retry_after_seconds() == Some(seconds) <==> {
            ||| failure == Failure::NotAuthorized(seconds)
            ||| failure == Failure::NetworkFailure(seconds)
            ||| failure == Failure::NoResources(seconds)
            ||| failure == Failure::UserExceededQuota(seconds)
            ||| failure == Failure::CannotProvideExternal(seconds)
        },
{
}

} // verus!
