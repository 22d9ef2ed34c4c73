//! Failures shared by the mapping protocols.

use vstd::prelude::*;
use vstd::string::*;

use crate::natpmp;
use crate::pcp;
use crate::scan::append_decimal;
use crate::text;
use crate::upnp;

verus! {

/// The kinds of socket error that the library tells apart.
#[derive(Clone, Copy, Debug, PartialEq, Eq, Structural)]
pub enum SocketErrorKind {
    /// The remote end refused the connection.
    ConnectionRefused,
    /// The remote end reset the connection.
    ConnectionReset,
    /// Any other kind of error.
    Other,
}

/// An error reported by a socket.
#[derive(Debug)]
pub struct SocketError {
    /// The kind of the error.
    pub kind: SocketErrorKind,

    /// The description of the error.
    pub message: String,
}

/// Errors that occur during the respective port mapping protocols.
#[derive(Debug)]
pub enum MappingFailure {
    /// An error of NAT-PMP.
    NatPmp(natpmp::Failure),

    /// An error of PCP.
    Pcp(pcp::Failure),

    /// An error of UPnP.
    Upnp(upnp::Failure),
}

impl vstd::std_specs::convert::FromSpecImpl<natpmp::Failure> for MappingFailure {
    open spec fn obeys_from_spec() -> bool {
        true
    }

    open spec fn from_spec(failure: natpmp::Failure) -> MappingFailure {
        MappingFailure::NatPmp(failure)
    }
}

impl From<natpmp::Failure> for MappingFailure {
    fn from(failure: natpmp::Failure) -> (mapped: MappingFailure) {
        MappingFailure::NatPmp(failure)
    }
}

impl vstd::std_specs::convert::FromSpecImpl<pcp::Failure> for MappingFailure {
    open spec fn obeys_from_spec() -> bool {
        true
    }

    open spec fn from_spec(failure: pcp::Failure) -> MappingFailure {
        MappingFailure::Pcp(failure)
    }
}

impl From<pcp::Failure> for MappingFailure {
    fn from(failure: pcp::Failure) -> (mapped: MappingFailure) {
        MappingFailure::Pcp(failure)
    }
}

impl vstd::std_specs::convert::FromSpecImpl<upnp::Failure> for MappingFailure {
    open spec fn obeys_from_spec() -> bool {
        true
    }

    open spec fn from_spec(failure: upnp::Failure) -> MappingFailure {
        MappingFailure::Upnp(failure)
    }
}

impl From<upnp::Failure> for MappingFailure {
    fn from(failure: upnp::Failure) -> (mapped: MappingFailure) {
        MappingFailure::Upnp(failure)
    }
}

impl MappingFailure {
    /// The description of the failure, given that of the protocol's own failure.
    pub open spec fn spec_message(self, detail: Seq<char>) -> Seq<char> {
        match self {
            MappingFailure::NatPmp(_) => "NAT-PMP("@ + detail + ")"@,
            MappingFailure::Pcp(_) => "PCP("@ + detail + ")"@,
            MappingFailure::Upnp(_) => "UPnP("@ + detail + ")"@,
        }
    }

    /// The description of the failure, given that of the protocol's own failure.
    pub fn message(&self, detail: &str) -> (message: String)
        ensures
            message@ == self.spec_message(detail@),
    {
        let mut message = match self {
            MappingFailure::NatPmp(_) => "NAT-PMP(".to_owned(),
            MappingFailure::Pcp(_) => "PCP(".to_owned(),
            MappingFailure::Upnp(_) => "UPnP(".to_owned(),
        };
        message.append(detail);
        message.append(")");
        message
    }
}

/// The failure returned when the protocol fallback chain of a new mapping has been exhausted.
#[derive(Debug)]
pub struct FallbackFailure {
    /// The failure returned by the last protocol attempted.
    pub failure: MappingFailure,

    /// The number of seconds the PCP server estimated its error will persist, when it reported one.
    /// NAT-PMP and UPnP servers do not give such estimates, see `pcp::Failure::retry_after_seconds`.
    pub retry_after_seconds: Option<u32>,
}

impl FallbackFailure {
    /// The description of the failure, given that of the protocol's own failure.
    pub open spec fn spec_message(self, detail: Seq<char>) -> Seq<char> {
        match self.retry_after_seconds {
            Some(seconds) => self.failure.spec_message(detail)
                + " (PCP server estimates the error will persist for "@ + text::decimal(
                seconds as nat,
            ) + " seconds)"@,
            None => self.failure.spec_message(detail),
        }
    }

    /// The description of the failure, given that of the protocol's own failure.
    pub fn message(&self, detail: &str) -> (message: String)
        ensures
            message@ == self.spec_message(detail@),
    {
        let mut message = self.failure.message(detail);
        match self.retry_after_seconds {
            Some(seconds) => {
                message.append(" (PCP server estimates the error will persist for ");
                append_decimal(&mut message, seconds as u64);
                message.append(" seconds)");
            },
            None => {},
        }
        message
    }
}

/// Errors that occur while listening for gateway address changes.
#[derive(Debug)]
pub enum ListenerFailure {
    /// Failed to bind, read, or write on a socket.
    Socket(SocketError),

    /// UPnP eventing could not be established or maintained.
    Upnp(upnp::Failure),

    /// The gateway accepted the event subscription, but its initial event never arrived.
    /// Inbound TCP connections from the gateway to the callback port are likely blocked.
    CallbackUnreachable,

    /// The gateway's WAN connection service does not offer event subscriptions.
    EventingUnsupported,
}

impl vstd::std_specs::convert::FromSpecImpl<upnp::Failure> for ListenerFailure {
    open spec fn obeys_from_spec() -> bool {
        true
    }

    open spec fn from_spec(failure: upnp::Failure) -> ListenerFailure {
        ListenerFailure::Upnp(failure)
    }
}

impl From<upnp::Failure> for ListenerFailure {
    fn from(failure: upnp::Failure) -> (mapped: ListenerFailure) {
        ListenerFailure::Upnp(failure)
    }
}

impl ListenerFailure {
    /// The description of the failure.
    pub open spec fn spec_message(self) -> Seq<char> {
        match self {
            ListenerFailure::Socket(e) => "Socket error: "@ + e.message@,
            ListenerFailure::Upnp(failure) => "UPnP("@ + failure.spec_message() + ")"@,
            ListenerFailure::CallbackUnreachable => "The gateway accepted the event subscription, but its initial event never arrived"@,
            ListenerFailure::EventingUnsupported => "The service does not offer event subscriptions"@,
        }
    }

    /// The description of the failure.
    pub fn message(&self) -> (message: String)
        ensures
            message@ == self.spec_message(),
    {
        match self {
            ListenerFailure::Socket(e) => {
                let mut message = "Socket error: ".to_owned();
                message.append(e.message.as_str());
                message
            },
            ListenerFailure::Upnp(failure) => {
                let mut message = "UPnP(".to_owned();
                message.append(failure.message().as_str());
                message.append(")");
                message
            },
            ListenerFailure::CallbackUnreachable => "The gateway accepted the event subscription, but its initial event never arrived".to_owned(),
            ListenerFailure::EventingUnsupported => "The service does not offer event subscriptions".to_owned(),
        }
    }
}

/// The description of a failure names the protocol that failed, around the description of the
/// protocol's own failure. An estimate of the server follows it.
pub proof fn law_failures_are_described(failure: FallbackFailure, detail: Seq<char>)
    ensures
        ({
            let message = failure.failure.spec_message(detail);
            &&& failure.failure is NatPmp ==> message == "NAT-PMP("@ + detail + ")"@
            &&& failure.failure is Pcp ==> message == "PCP("@ + detail + ")"@
            &&& failure.failure is Upnp ==> message == "UPnP("@ + detail + ")"@
            &&& failure.retry_after_seconds is None ==> failure.spec_message(detail) == message
            &&& failure.retry_after_seconds matches Some(seconds) ==> failure.spec_message(detail)
                == message + " (PCP server estimates the error will persist for "@ + text::decimal(
                seconds as nat,
            ) + " seconds)"@
        }),
{
}

/// The description of a listener's failure holds that of its cause, or says what the gateway lacks.
pub proof fn law_listener_failures_are_described(error: SocketError, failure: upnp::Failure)
    ensures
        ListenerFailure::Socket(error).spec_message() == "Socket error: "@ + error.message@,
        ListenerFailure::Upnp(failure).spec_message() == "UPnP("@ + failure.spec_message() + ")"@,
        ListenerFailure::CallbackUnreachable.spec_message()
            == "The gateway accepted the event subscription, but its initial event never arrived"@,
        ListenerFailure::EventingUnsupported.spec_message()
            == "The service does not offer event subscriptions"@,
{
}

} // verus!
