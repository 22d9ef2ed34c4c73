//! The ways in which a UPnP exchange can fail.

use vstd::prelude::*;
use vstd::string::*;

use crate::failures::SocketError;
use crate::scan::append_decimal;
use crate::text;
use crate::upnp::MAX_HTTP_RESPONSE_SIZE;

verus! {

/// Error codes from a UPnP device error response.
/// Codes in the 700 range are specific to the WAN connection services, see the `WANIPConnection`
/// specifications <https://openconnectivity.org/upnp-specs/UPnP-gw-WANIPConnection-v1-Service.pdf>
/// and <https://openconnectivity.org/upnp-specs/UPnP-gw-WANIPConnection-v2-Service.pdf>.
#[derive(Clone, Copy, Debug, PartialEq, Eq, Structural)]
pub enum ErrorCode {
    /// The requested action is not supported by the service.
    InvalidAction,

    /// The arguments given for the action are invalid.
    InvalidArgs,

    /// The action failed for a service specific reason.
    ActionFailed,

    /// The requested action is optional and not implemented by the device.
    OptionalActionNotImplemented,

    /// The sender is not authorized to perform the action.
    ActionNotAuthorized,

    /// The specified array index is out of bounds.
    SpecifiedArrayIndexInvalid,

    /// No port mapping exists matching the given parameters.
    NoSuchEntryInArray,

    /// The source IP address cannot be wild-carded.
    WildCardNotPermittedInSrcIp,

    /// The external port cannot be wild-carded.
    WildCardNotPermittedInExtPort,

    /// The requested mapping conflicts with a mapping assigned to another client.
    ConflictInMappingEntry,

    /// The internal and external ports must have the same value.
    SamePortValuesRequired,

    /// The gateway only supports permanent lifetimes on port mappings.
    OnlyPermanentLeasesSupported,

    /// The remote host must be a wildcard and cannot be a specific IP address.
    RemoteHostOnlySupportsWildcard,

    /// The external port must be a wildcard and cannot be a specific port.
    ExternalPortOnlySupportsWildcard,

    /// The gateway does not have any free external ports available.
    NoPortMapsAvailable,

    /// Mappings are not allowed due to a conflict with other mechanisms, e.g. administrative restrictions.
    ConflictWithOtherMechanisms,

    /// The internal port cannot be wild-carded.
    WildCardNotPermittedInIntPort,

}

impl ErrorCode {
    /// The number that stands for the error in a response.
    pub open spec fn spec_number(self) -> u16 {
        match self {
            ErrorCode::InvalidAction => 401,
            ErrorCode::InvalidArgs => 402,
            ErrorCode::ActionFailed => 501,
            ErrorCode::OptionalActionNotImplemented => 602,
            ErrorCode::ActionNotAuthorized => 606,
            ErrorCode::SpecifiedArrayIndexInvalid => 713,
            ErrorCode::NoSuchEntryInArray => 714,
            ErrorCode::WildCardNotPermittedInSrcIp => 715,
            ErrorCode::WildCardNotPermittedInExtPort => 716,
            ErrorCode::ConflictInMappingEntry => 718,
            ErrorCode::SamePortValuesRequired => 724,
            ErrorCode::OnlyPermanentLeasesSupported => 725,
            ErrorCode::RemoteHostOnlySupportsWildcard => 726,
            ErrorCode::ExternalPortOnlySupportsWildcard => 727,
            ErrorCode::NoPortMapsAvailable => 728,
            ErrorCode::ConflictWithOtherMechanisms => 729,
            ErrorCode::WildCardNotPermittedInIntPort => 732,
        }
    }

    /// The number that stands for the error in a response.
    pub fn number(self) -> (number: u16)
        ensures
            number == self.spec_number(),
    {
        match self {
            ErrorCode::InvalidAction => 401,
            ErrorCode::InvalidArgs => 402,
            ErrorCode::ActionFailed => 501,
            ErrorCode::OptionalActionNotImplemented => 602,
            ErrorCode::ActionNotAuthorized => 606,
            ErrorCode::SpecifiedArrayIndexInvalid => 713,
            ErrorCode::NoSuchEntryInArray => 714,
            ErrorCode::WildCardNotPermittedInSrcIp => 715,
            ErrorCode::WildCardNotPermittedInExtPort => 716,
            ErrorCode::ConflictInMappingEntry => 718,
            ErrorCode::SamePortValuesRequired => 724,
            ErrorCode::OnlyPermanentLeasesSupported => 725,
            ErrorCode::RemoteHostOnlySupportsWildcard => 726,
            ErrorCode::ExternalPortOnlySupportsWildcard => 727,
            ErrorCode::NoPortMapsAvailable => 728,
            ErrorCode::ConflictWithOtherMechanisms => 729,
            ErrorCode::WildCardNotPermittedInIntPort => 732,
        }
    }

    /// The error that a number stands for, if it is one of the specified errors.
    pub fn from_number(number: u16) -> (code: Option<ErrorCode>)
        ensures
            match code {
                Some(c) => c.spec_number() == number,
                None => forall|c: ErrorCode| (#[trigger] c.spec_number()) != number,
            },
    {
        match number {
            401 => Some(ErrorCode::InvalidAction),
            402 => Some(ErrorCode::InvalidArgs),
            501 => Some(ErrorCode::ActionFailed),
            602 => Some(ErrorCode::OptionalActionNotImplemented),
            606 => Some(ErrorCode::ActionNotAuthorized),
            713 => Some(ErrorCode::SpecifiedArrayIndexInvalid),
            714 => Some(ErrorCode::NoSuchEntryInArray),
            715 => Some(ErrorCode::WildCardNotPermittedInSrcIp),
            716 => Some(ErrorCode::WildCardNotPermittedInExtPort),
            718 => Some(ErrorCode::ConflictInMappingEntry),
            724 => Some(ErrorCode::SamePortValuesRequired),
            725 => Some(ErrorCode::OnlyPermanentLeasesSupported),
            726 => Some(ErrorCode::RemoteHostOnlySupportsWildcard),
            727 => Some(ErrorCode::ExternalPortOnlySupportsWildcard),
            728 => Some(ErrorCode::NoPortMapsAvailable),
            729 => Some(ErrorCode::ConflictWithOtherMechanisms),
            732 => Some(ErrorCode::WildCardNotPermittedInIntPort),
            _ => None,
        }
    }

    /// The description of the error.
    pub open spec fn spec_message(self) -> Seq<char> {
        match self {
            ErrorCode::InvalidAction => "The requested action is not supported by the service."@,
            ErrorCode::InvalidArgs => "The arguments given for the action are invalid."@,
            ErrorCode::ActionFailed => "The action failed for a service specific reason."@,
            ErrorCode::OptionalActionNotImplemented => "The requested action is optional and not implemented by the device."@,
            ErrorCode::ActionNotAuthorized => "The sender is not authorized to perform the action."@,
            ErrorCode::SpecifiedArrayIndexInvalid => "The specified array index is out of bounds."@,
            ErrorCode::NoSuchEntryInArray => "No port mapping exists matching the given parameters."@,
            ErrorCode::WildCardNotPermittedInSrcIp => "The source IP address cannot be wild-carded."@,
            ErrorCode::WildCardNotPermittedInExtPort => "The external port cannot be wild-carded."@,
            ErrorCode::ConflictInMappingEntry => "The requested mapping conflicts with a mapping assigned to another client."@,
            ErrorCode::SamePortValuesRequired => "The internal and external ports must have the same value."@,
            ErrorCode::OnlyPermanentLeasesSupported => "The gateway only supports permanent lifetimes on port mappings."@,
            ErrorCode::RemoteHostOnlySupportsWildcard => "The remote host must be a wildcard and cannot be a specific IP address."@,
            ErrorCode::ExternalPortOnlySupportsWildcard => "The external port must be a wildcard and cannot be a specific port."@,
            ErrorCode::NoPortMapsAvailable => "The gateway does not have any free external ports available."@,
            ErrorCode::ConflictWithOtherMechanisms => "Mappings are not allowed due to a conflict with other mechanisms, e.g. administrative restrictions."@,
            ErrorCode::WildCardNotPermittedInIntPort => "The internal port cannot be wild-carded."@,
        }
    }

    /// The description of the error.
    pub fn message(self) -> (message: &'static str)
        ensures
            message@ == self.spec_message(),
    {
        match self {
            ErrorCode::InvalidAction => "The requested action is not supported by the service.",
            ErrorCode::InvalidArgs => "The arguments given for the action are invalid.",
            ErrorCode::ActionFailed => "The action failed for a service specific reason.",
            ErrorCode::OptionalActionNotImplemented => "The requested action is optional and not implemented by the device.",
            ErrorCode::ActionNotAuthorized => "The sender is not authorized to perform the action.",
            ErrorCode::SpecifiedArrayIndexInvalid => "The specified array index is out of bounds.",
            ErrorCode::NoSuchEntryInArray => "No port mapping exists matching the given parameters.",
            ErrorCode::WildCardNotPermittedInSrcIp => "The source IP address cannot be wild-carded.",
            ErrorCode::WildCardNotPermittedInExtPort => "The external port cannot be wild-carded.",
            ErrorCode::ConflictInMappingEntry => "The requested mapping conflicts with a mapping assigned to another client.",
            ErrorCode::SamePortValuesRequired => "The internal and external ports must have the same value.",
            ErrorCode::OnlyPermanentLeasesSupported => "The gateway only supports permanent lifetimes on port mappings.",
            ErrorCode::RemoteHostOnlySupportsWildcard => "The remote host must be a wildcard and cannot be a specific IP address.",
            ErrorCode::ExternalPortOnlySupportsWildcard => "The external port must be a wildcard and cannot be a specific port.",
            ErrorCode::NoPortMapsAvailable => "The gateway does not have any free external ports available.",
            ErrorCode::ConflictWithOtherMechanisms => "Mappings are not allowed due to a conflict with other mechanisms, e.g. administrative restrictions.",
            ErrorCode::WildCardNotPermittedInIntPort => "The internal port cannot be wild-carded.",
        }
    }
}

/// Specific reasons why a UPnP response was considered invalid.
#[derive(Debug)]
pub enum InvalidResponseKind {
    /// The SSDP search response could not be parsed or was not a success.
    SearchResponse,

    /// The SSDP search response did not contain a location header.
    MissingLocation,

    /// A URL did not have the expected `http://host[:port][/path]` structure.
    InvalidUrl(String),

    /// The HTTP response could not be parsed.
    HttpResponse,

    /// The HTTP response exceeded the maximum number of bytes we allow.
    ResponseTooLarge,

    /// The device description does not contain a supported WAN connection service.
    NoWanConnectionService,

    /// A required XML tag was missing from the response body.
    MissingTag(&'static str),

    /// The error response did not contain a valid UPnP error code.
    ErrorResponse,

    /// The gateway accepted an event subscription without assigning it an identifier.
    MissingSubscriptionId,

    /// A tag in the response contained a value that could not be parsed.
    InvalidValue { tag: &'static str, value: String },
}

impl InvalidResponseKind {
    /// The description of the reason.
    pub open spec fn spec_message(self) -> Seq<char> {
        match self {
            InvalidResponseKind::SearchResponse => "Invalid search response"@,
            InvalidResponseKind::MissingLocation => "Search response is missing a location header"@,
            InvalidResponseKind::InvalidUrl(url) => "Invalid HTTP URL: "@ + url@,
            InvalidResponseKind::HttpResponse => "Invalid HTTP response"@,
            InvalidResponseKind::ResponseTooLarge => "HTTP response is larger than the maximum of "@
                + text::decimal(MAX_HTTP_RESPONSE_SIZE as nat) + " bytes"@,
            InvalidResponseKind::NoWanConnectionService => "No supported WAN connection service in the device description"@,
            InvalidResponseKind::MissingTag(tag) => "Missing XML tag: "@ + tag@,
            InvalidResponseKind::ErrorResponse => "Invalid UPnP error response"@,
            InvalidResponseKind::MissingSubscriptionId => "Subscription response is missing an SID header"@,
            InvalidResponseKind::InvalidValue { tag, value } => "Invalid value for "@ + tag@ + ": "@
                + value@,
        }
    }

    /// The description of the reason.
    pub fn message(&self) -> (message: String)
        ensures
            message@ == self.spec_message(),
    {
        match self {
            InvalidResponseKind::SearchResponse => "Invalid search response".to_owned(),
            InvalidResponseKind::MissingLocation => "Search response is missing a location header".to_owned(),
            InvalidResponseKind::InvalidUrl(url) => {
                let mut message = "Invalid HTTP URL: ".to_owned();
                message.append(url.as_str());
                message
            },
            InvalidResponseKind::HttpResponse => "Invalid HTTP response".to_owned(),
            InvalidResponseKind::ResponseTooLarge => {
                let mut message = "HTTP response is larger than the maximum of ".to_owned();
                append_decimal(&mut message, MAX_HTTP_RESPONSE_SIZE as u64);
                message.append(" bytes");
                message
            },
            InvalidResponseKind::NoWanConnectionService => "No supported WAN connection service in the device description".to_owned(),
            InvalidResponseKind::MissingTag(tag) => {
                let mut message = "Missing XML tag: ".to_owned();
                message.append(tag);
                message
            },
            InvalidResponseKind::ErrorResponse => "Invalid UPnP error response".to_owned(),
            InvalidResponseKind::MissingSubscriptionId => "Subscription response is missing an SID header".to_owned(),
            InvalidResponseKind::InvalidValue { tag, value } => {
                let mut message = "Invalid value for ".to_owned();
                message.append(tag);
                message.append(": ");
                message.append(value.as_str());
                message
            },
        }
    }
}

/// Errors that may occur when trying to map a port on the gateway, categorized by the root of the issue.
#[derive(Debug)]
pub enum Failure {
    /// Failed to use a UDP or TCP socket to communicate with the gateway.
    Socket(SocketError),

    /// The gateway was unreachable within the timeout.
    Timeout,

    /// The gateway did not give a valid response according to the UPnP standards.
    InvalidResponse(InvalidResponseKind),

    /// The gateway responded to an HTTP request with an unexpected status code.
    HttpStatus(u16),

    /// The requested action is not supported by the service.
    InvalidAction,

    /// The arguments given for the action are invalid.
    InvalidArgs,

    /// The action failed for a service specific reason.
    ActionFailed,

    /// The requested action is optional and not implemented by the device.
    OptionalActionNotImplemented,

    /// The server did not authorize the operation.
    ActionNotAuthorized,

    /// The specified array index is out of bounds.
    SpecifiedArrayIndexInvalid,

    /// No port mapping exists matching the given parameters.
    NoSuchEntryInArray,

    /// The source IP address cannot be wild-carded.
    WildCardNotPermittedInSrcIp,

    /// The external port cannot be wild-carded.
    WildCardNotPermittedInExtPort,

    /// The requested mapping conflicts with a mapping assigned to another client.
    ConflictInMappingEntry,

    /// The internal and external ports must have the same value.
    SamePortValuesRequired,

    /// The gateway only supports permanent lifetimes on port mappings.
    OnlyPermanentLeasesSupported,

    /// The remote host must be a wildcard and cannot be a specific IP address.
    RemoteHostOnlySupportsWildcard,

    /// The external port must be a wildcard and cannot be a specific port.
    ExternalPortOnlySupportsWildcard,

    /// The gateway does not have any free external ports available.
    NoPortMapsAvailable,

    /// Mappings are not allowed due to a conflict with other mechanisms, e.g. administrative restrictions.
    ConflictWithOtherMechanisms,

    /// The internal port cannot be wild-carded.
    WildCardNotPermittedInIntPort,

    /// The gateway responded with an error code that is not part of the UPnP or IGD specifications.
    /// Codes in the 800 range are reserved for vendor specific errors, so they are kept as-is
    /// rather than being treated as an invalid response.
    UnknownErrorCode(u16),
}

impl vstd::std_specs::convert::FromSpecImpl<InvalidResponseKind> for Failure {
    open spec fn obeys_from_spec() -> bool {
        true
    }

    open spec fn from_spec(kind: InvalidResponseKind) -> Failure {
        Failure::InvalidResponse(kind)
    }
}

impl From<InvalidResponseKind> for Failure {
    fn from(kind: InvalidResponseKind) -> (failure: Failure) {
        Failure::InvalidResponse(kind)
    }
}

impl Failure {
    /// The description of the failure.
    pub open spec fn spec_message(self) -> Seq<char> {
        match self {
            Failure::Socket(e) => "Socket error: "@ + e.message@,
            Failure::Timeout => "Gateway did not respond within the timeout"@,
            Failure::InvalidResponse(kind) => "Invalid response: "@ + kind.spec_message(),
            Failure::HttpStatus(status) => "Unexpected HTTP status code: "@ + text::decimal(
                status as nat,
            ),
            Failure::InvalidAction => "Server responded with code: Invalid action"@,
            Failure::InvalidArgs => "Server responded with code: Invalid arguments"@,
            Failure::ActionFailed => "Server responded with code: Action failed"@,
            Failure::OptionalActionNotImplemented => "Server responded with code: Optional action not implemented"@,
            Failure::ActionNotAuthorized => "Server responded with code: Action not authorized"@,
            Failure::SpecifiedArrayIndexInvalid => "Server responded with code: Specified array index invalid"@,
            Failure::NoSuchEntryInArray => "Server responded with code: No such entry in array"@,
            Failure::WildCardNotPermittedInSrcIp => "Server responded with code: Wildcard not permitted in source IP"@,
            Failure::WildCardNotPermittedInExtPort => "Server responded with code: Wildcard not permitted in external port"@,
            Failure::ConflictInMappingEntry => "Server responded with code: Conflict in mapping entry"@,
            Failure::SamePortValuesRequired => "Server responded with code: Same port values required"@,
            Failure::OnlyPermanentLeasesSupported => "Server responded with code: Only permanent leases supported"@,
            Failure::RemoteHostOnlySupportsWildcard => "Server responded with code: Remote host only supports wildcard"@,
            Failure::ExternalPortOnlySupportsWildcard => "Server responded with code: External port only supports wildcard"@,
            Failure::NoPortMapsAvailable => "Server responded with code: No port maps available"@,
            Failure::ConflictWithOtherMechanisms => "Server responded with code: Conflict with other mechanisms"@,
            Failure::WildCardNotPermittedInIntPort => "Server responded with code: Wildcard not permitted in internal port"@,
            Failure::UnknownErrorCode(code) => "Server responded with unknown error code: "@
                + text::decimal(code as nat),
        }
    }

    /// The description of the failure.
    pub fn message(&self) -> (message: String)
        ensures
            message@ == self.spec_message(),
    {
        match self {
            Failure::Socket(e) => {
                let mut message = "Socket error: ".to_owned();
                message.append(e.message.as_str());
                message
            },
            Failure::Timeout => "Gateway did not respond within the timeout".to_owned(),
            Failure::InvalidResponse(kind) => {
                let mut message = "Invalid response: ".to_owned();
                message.append(kind.message().as_str());
                message
            },
            Failure::HttpStatus(status) => {
                let mut message = "Unexpected HTTP status code: ".to_owned();
                append_decimal(&mut message, *status as u64);
                message
            },
            Failure::InvalidAction => "Server responded with code: Invalid action".to_owned(),
            Failure::InvalidArgs => "Server responded with code: Invalid arguments".to_owned(),
            Failure::ActionFailed => "Server responded with code: Action failed".to_owned(),
            Failure::OptionalActionNotImplemented => "Server responded with code: Optional action not implemented".to_owned(),
            Failure::ActionNotAuthorized => "Server responded with code: Action not authorized".to_owned(),
            Failure::SpecifiedArrayIndexInvalid => "Server responded with code: Specified array index invalid".to_owned(),
            Failure::NoSuchEntryInArray => "Server responded with code: No such entry in array".to_owned(),
            Failure::WildCardNotPermittedInSrcIp => "Server responded with code: Wildcard not permitted in source IP".to_owned(),
            Failure::WildCardNotPermittedInExtPort => "Server responded with code: Wildcard not permitted in external port".to_owned(),
            Failure::ConflictInMappingEntry => "Server responded with code: Conflict in mapping entry".to_owned(),
            Failure::SamePortValuesRequired => "Server responded with code: Same port values required".to_owned(),
            Failure::OnlyPermanentLeasesSupported => "Server responded with code: Only permanent leases supported".to_owned(),
            Failure::RemoteHostOnlySupportsWildcard => "Server responded with code: Remote host only supports wildcard".to_owned(),
            Failure::ExternalPortOnlySupportsWildcard => "Server responded with code: External port only supports wildcard".to_owned(),
            Failure::NoPortMapsAvailable => "Server responded with code: No port maps available".to_owned(),
            Failure::ConflictWithOtherMechanisms => "Server responded with code: Conflict with other mechanisms".to_owned(),
            Failure::WildCardNotPermittedInIntPort => "Server responded with code: Wildcard not permitted in internal port".to_owned(),
            Failure::UnknownErrorCode(code) => {
                let mut message = "Server responded with unknown error code: ".to_owned();
                append_decimal(&mut message, *code as u64);
                message
            },
        }
    }
}

/// The failure that a specified error code stands for.
pub open spec fn code_failure(code: ErrorCode) -> Failure {
    match code {
        ErrorCode::InvalidAction => Failure::InvalidAction,
        ErrorCode::InvalidArgs => Failure::InvalidArgs,
        ErrorCode::ActionFailed => Failure::ActionFailed,
        ErrorCode::OptionalActionNotImplemented => Failure::OptionalActionNotImplemented,
        ErrorCode::ActionNotAuthorized => Failure::ActionNotAuthorized,
        ErrorCode::SpecifiedArrayIndexInvalid => Failure::SpecifiedArrayIndexInvalid,
        ErrorCode::NoSuchEntryInArray => Failure::NoSuchEntryInArray,
        ErrorCode::WildCardNotPermittedInSrcIp => Failure::WildCardNotPermittedInSrcIp,
        ErrorCode::WildCardNotPermittedInExtPort => Failure::WildCardNotPermittedInExtPort,
        ErrorCode::ConflictInMappingEntry => Failure::ConflictInMappingEntry,
        ErrorCode::SamePortValuesRequired => Failure::SamePortValuesRequired,
        ErrorCode::OnlyPermanentLeasesSupported => Failure::OnlyPermanentLeasesSupported,
        ErrorCode::RemoteHostOnlySupportsWildcard => Failure::RemoteHostOnlySupportsWildcard,
        ErrorCode::ExternalPortOnlySupportsWildcard => Failure::ExternalPortOnlySupportsWildcard,
        ErrorCode::NoPortMapsAvailable => Failure::NoPortMapsAvailable,
        ErrorCode::ConflictWithOtherMechanisms => Failure::ConflictWithOtherMechanisms,
        ErrorCode::WildCardNotPermittedInIntPort => Failure::WildCardNotPermittedInIntPort,
    }
}

/// The failure that an error code stands for. Codes that are not specified are kept as they are.
pub open spec fn failure_for(error_code: u16) -> Failure {
    if exists|c: ErrorCode| (#[trigger] c.spec_number()) == error_code {
        code_failure(choose|c: ErrorCode| (#[trigger] c.spec_number()) == error_code)
    } else {
        Failure::UnknownErrorCode(error_code)
    }
}

/// Helper to map UPnP error codes from an error response to a `Failure`.
#[must_use]
pub fn code_to_failure(error_code: u16) -> (failure: Failure)
    ensures
        failure == failure_for(error_code),
        forall|c: ErrorCode| (#[trigger] c.spec_number()) == error_code ==> failure == code_failure(c),
        (forall|c: ErrorCode| (#[trigger] c.spec_number()) != error_code) ==> failure
            == Failure::UnknownErrorCode(error_code),
{
    // Map recognized error codes to their failure, otherwise keep the raw code.
    match ErrorCode::from_number(error_code) {
        Some(code) => match code {
            ErrorCode::InvalidAction => Failure::InvalidAction,
            ErrorCode::InvalidArgs => Failure::InvalidArgs,
            ErrorCode::ActionFailed => Failure::ActionFailed,
            ErrorCode::OptionalActionNotImplemented => Failure::OptionalActionNotImplemented,
            ErrorCode::ActionNotAuthorized => Failure::ActionNotAuthorized,
            ErrorCode::SpecifiedArrayIndexInvalid => Failure::SpecifiedArrayIndexInvalid,
            ErrorCode::NoSuchEntryInArray => Failure::NoSuchEntryInArray,
            ErrorCode::WildCardNotPermittedInSrcIp => Failure::WildCardNotPermittedInSrcIp,
            ErrorCode::WildCardNotPermittedInExtPort => Failure::WildCardNotPermittedInExtPort,
            ErrorCode::ConflictInMappingEntry => Failure::ConflictInMappingEntry,
            ErrorCode::SamePortValuesRequired => Failure::SamePortValuesRequired,
            ErrorCode::OnlyPermanentLeasesSupported => Failure::OnlyPermanentLeasesSupported,
            ErrorCode::RemoteHostOnlySupportsWildcard => Failure::RemoteHostOnlySupportsWildcard,
            ErrorCode::ExternalPortOnlySupportsWildcard => Failure::ExternalPortOnlySupportsWildcard,
            ErrorCode::NoPortMapsAvailable => Failure::NoPortMapsAvailable,
            ErrorCode::ConflictWithOtherMechanisms => Failure::ConflictWithOtherMechanisms,
            ErrorCode::WildCardNotPermittedInIntPort => Failure::WildCardNotPermittedInIntPort,
        },
        None => Failure::UnknownErrorCode(error_code),
    }
}

/// No two errors share a number.
pub proof fn law_error_numbers_are_distinct(a: ErrorCode, b: ErrorCode)
    requires
        a.spec_number() == b.spec_number(),
    ensures
        a == b,
{
}

/// The specified error codes stand for their failures, and any other code is kept as it is.
pub proof fn law_error_codes(code: u16)
    ensures
        failure_for(code) == (if code == 401 {
            Failure::InvalidAction
        } else if code == 402 {
            Failure::InvalidArgs
        } else if code == 501 {
            Failure::ActionFailed
        } else if code == 602 {
            Failure::OptionalActionNotImplemented
        } else if code == 606 {
            Failure::ActionNotAuthorized
        } else if code == 713 {
            Failure::SpecifiedArrayIndexInvalid
        } else if code == 714 {
            Failure::NoSuchEntryInArray
        } else if code == 715 {
            Failure::WildCardNotPermittedInSrcIp
        } else if code == 716 {
            Failure::WildCardNotPermittedInExtPort
        } else if code == 718 {
            Failure::ConflictInMappingEntry
        } else if code == 724 {
            Failure::SamePortValuesRequired
        } else if code == 725 {
            Failure::OnlyPermanentLeasesSupported
        } else if code == 726 {
            Failure::RemoteHostOnlySupportsWildcard
        } else if code == 727 {
            Failure::ExternalPortOnlySupportsWildcard
        } else if code == 728 {
            Failure::NoPortMapsAvailable
        } else if code == 729 {
            Failure::ConflictWithOtherMechanisms
        } else if code == 732 {
            Failure::WildCardNotPermittedInIntPort
        } else {
            Failure::UnknownErrorCode(code)
        }),
{
    assert(ErrorCode::InvalidAction.spec_number() == 401);
    assert(ErrorCode::InvalidArgs.spec_number() == 402);
    assert(ErrorCode::ActionFailed.spec_number() == 501);
    assert(ErrorCode::OptionalActionNotImplemented.spec_number() == 602);
    assert(ErrorCode::ActionNotAuthorized.spec_number() == 606);
    assert(ErrorCode::SpecifiedArrayIndexInvalid.spec_number() == 713);
    assert(ErrorCode::NoSuchEntryInArray.spec_number() == 714);
    assert(ErrorCode::WildCardNotPermittedInSrcIp.spec_number() == 715);
    assert(ErrorCode::WildCardNotPermittedInExtPort.spec_number() == 716);
    assert(ErrorCode::ConflictInMappingEntry.spec_number() == 718);
    assert(ErrorCode::SamePortValuesRequired.spec_number() == 724);
    assert(ErrorCode::OnlyPermanentLeasesSupported.spec_number() == 725);
    assert(ErrorCode::RemoteHostOnlySupportsWildcard.spec_number() == 726);
    assert(ErrorCode::ExternalPortOnlySupportsWildcard.spec_number() == 727);
    assert(ErrorCode::NoPortMapsAvailable.spec_number() == 728);
    assert(ErrorCode::ConflictWithOtherMechanisms.spec_number() == 729);
    assert(ErrorCode::WildCardNotPermittedInIntPort.spec_number() == 732);
}

/// Each error has its own description.
pub proof fn law_errors_are_described(code: ErrorCode)
    ensures
        code is InvalidAction ==> code.spec_message()
            == "The requested action is not supported by the service."@,
        code is InvalidArgs ==> code.spec_message()
            == "The arguments given for the action are invalid."@,
        code is ActionFailed ==> code.spec_message()
            == "The action failed for a service specific reason."@,
        code is OptionalActionNotImplemented ==> code.spec_message()
            == "The requested action is optional and not implemented by the device."@,
        code is ActionNotAuthorized ==> code.spec_message()
            == "The sender is not authorized to perform the action."@,
        code is SpecifiedArrayIndexInvalid ==> code.spec_message()
            == "The specified array index is out of bounds."@,
        code is NoSuchEntryInArray ==> code.spec_message()
            == "No port mapping exists matching the given parameters."@,
        code is WildCardNotPermittedInSrcIp ==> code.spec_message()
            == "The source IP address cannot be wild-carded."@,
        code is WildCardNotPermittedInExtPort ==> code.spec_message()
            == "The external port cannot be wild-carded."@,
        code is ConflictInMappingEntry ==> code.spec_message()
            == "The requested mapping conflicts with a mapping assigned to another client."@,
        code is SamePortValuesRequired ==> code.spec_message()
            == "The internal and external ports must have the same value."@,
        code is OnlyPermanentLeasesSupported ==> code.spec_message()
            == "The gateway only supports permanent lifetimes on port mappings."@,
        code is RemoteHostOnlySupportsWildcard ==> code.spec_message()
            == "The remote host must be a wildcard and cannot be a specific IP address."@,
        code is ExternalPortOnlySupportsWildcard ==> code.spec_message()
            == "The external port must be a wildcard and cannot be a specific port."@,
        code is NoPortMapsAvailable ==> code.spec_message()
            == "The gateway does not have any free external ports available."@,
        code is ConflictWithOtherMechanisms ==> code.spec_message()
            == "Mappings are not allowed due to a conflict with other mechanisms, e.g. administrative restrictions."@,
        code is WildCardNotPermittedInIntPort ==> code.spec_message()
            == "The internal port cannot be wild-carded."@,
{
}

/// The description of an invalid response says what is wrong with it, and holds the text that is.
pub proof fn law_invalid_responses_are_described(kind: InvalidResponseKind)
    ensures
        kind is SearchResponse ==> kind.spec_message() == "Invalid search response"@,
        kind is MissingLocation ==> kind.spec_message()
            == "Search response is missing a location header"@,
        kind matches InvalidResponseKind::InvalidUrl(url) ==> kind.spec_message()
            == "Invalid HTTP URL: "@ + url@,
        kind is HttpResponse ==> kind.spec_message() == "Invalid HTTP response"@,
        kind is ResponseTooLarge ==> kind.spec_message()
            == "HTTP response is larger than the maximum of "@ + text::decimal(262_144) + " bytes"@,
        kind is NoWanConnectionService ==> kind.spec_message()
            == "No supported WAN connection service in the device description"@,
        kind matches InvalidResponseKind::MissingTag(tag) ==> kind.spec_message()
            == "Missing XML tag: "@ + tag@,
        kind is ErrorResponse ==> kind.spec_message() == "Invalid UPnP error response"@,
        kind is MissingSubscriptionId ==> kind.spec_message()
            == "Subscription response is missing an SID header"@,
        kind matches InvalidResponseKind::InvalidValue { tag, value } ==> kind.spec_message()
            == "Invalid value for "@ + tag@ + ": "@ + value@,
{
}

/// The description of a failure says what failed, and holds the description of the cause or its
/// number.
pub proof fn law_failures_are_described(failure: Failure)
    ensures
        failure matches Failure::Socket(e) ==> failure.spec_message()
            == "Socket error: "@ + e.message@,
        failure is Timeout ==> failure.spec_message()
            == "Gateway did not respond within the timeout"@,
        failure matches Failure::InvalidResponse(kind) ==> failure.spec_message()
            == "Invalid response: "@ + kind.spec_message(),
        failure matches Failure::HttpStatus(status) ==> failure.spec_message()
            == "Unexpected HTTP status code: "@ + text::decimal(status as nat),
        failure is InvalidAction ==> failure.spec_message()
            == "Server responded with code: Invalid action"@,
        failure is InvalidArgs ==> failure.spec_message()
            == "Server responded with code: Invalid arguments"@,
        failure is ActionFailed ==> failure.spec_message()
            == "Server responded with code: Action failed"@,
        failure is OptionalActionNotImplemented ==> failure.spec_message()
            == "Server responded with code: Optional action not implemented"@,
        failure is ActionNotAuthorized ==> failure.spec_message()
            == "Server responded with code: Action not authorized"@,
        failure is SpecifiedArrayIndexInvalid ==> failure.spec_message()
            == "Server responded with code: Specified array index invalid"@,
        failure is NoSuchEntryInArray ==> failure.spec_message()
            == "Server responded with code: No such entry in array"@,
        failure is WildCardNotPermittedInSrcIp ==> failure.spec_message()
            == "Server responded with code: Wildcard not permitted in source IP"@,
        failure is WildCardNotPermittedInExtPort ==> failure.spec_message()
            == "Server responded with code: Wildcard not permitted in external port"@,
        failure is ConflictInMappingEntry ==> failure.spec_message()
            == "Server responded with code: Conflict in mapping entry"@,
        failure is SamePortValuesRequired ==> failure.spec_message()
            == "Server responded with code: Same port values required"@,
        failure is OnlyPermanentLeasesSupported ==> failure.spec_message()
            == "Server responded with code: Only permanent leases supported"@,
        failure is RemoteHostOnlySupportsWildcard ==> failure.spec_message()
            == "Server responded with code: Remote host only supports wildcard"@,
        failure is ExternalPortOnlySupportsWildcard ==> failure.spec_message()
            == "Server responded with code: External port only supports wildcard"@,
        failure is NoPortMapsAvailable ==> failure.spec_message()
            == "Server responded with code: No port maps available"@,
        failure is ConflictWithOtherMechanisms ==> failure.spec_message()
            == "Server responded with code: Conflict with other mechanisms"@,
        failure is WildCardNotPermittedInIntPort ==> failure.spec_message()
            == "Server responded with code: Wildcard not permitted in internal port"@,
        failure matches Failure::UnknownErrorCode(code) ==> failure.spec_message()
            == "Server responded with unknown error code: "@ + text::decimal(code as nat),
{
}

} // verus!
