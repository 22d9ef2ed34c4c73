//! SOAP actions, through which a gateway is controlled.

use vstd::prelude::*;
use vstd::string::*;
use vstd::utf8::*;

use crate::address::{IpAddr, NonZeroU16};
use crate::protocol::InternetProtocol;
use crate::scan;
use crate::scan::{append_decimal, chars_of, span_eq_ignore_case, span_number};
use crate::text;
use crate::upnp::endpoint::ControlEndpoint;
use crate::upnp::failure;
use crate::upnp::failure::{code_to_failure, Failure, InvalidResponseKind};
use crate::upnp::http::HttpResponse;
use crate::upnp::url;
use crate::upnp::url::host_header;
use crate::upnp::xml;
use crate::upnp::xml::find_tag_value;
use crate::upnp::PORT_MAPPING_DESCRIPTION;

verus! {

/// The SOAP envelope for an action of a service.
pub open spec fn envelope_text(
    service_type: Seq<char>,
    action: Seq<char>,
    arguments: Seq<char>,
) -> Seq<char> {
    "<?xml version=\"1.0\"?><s:Envelope xmlns:s=\"http://schemas.xmlsoap.org/soap/envelope/\" s:encodingStyle=\"http://schemas.xmlsoap.org/soap/encoding/\"><s:Body><u:"@
        + action + " xmlns:u=\""@ + service_type + "\">"@ + arguments + "</u:"@ + action
        + "></s:Body></s:Envelope>"@
}

/// The HTTP request wrapping a SOAP envelope. The length it gives is that of the encoded envelope.
pub open spec fn soap_text(
    path: Seq<char>,
    host: Seq<char>,
    service_type: Seq<char>,
    action: Seq<char>,
    envelope: Seq<char>,
) -> Seq<char> {
    "POST "@ + path + " HTTP/1.1\r\nHost: "@ + host
        + "\r\nContent-Type: text/xml; charset=\"utf-8\"\r\nContent-Length: "@ + text::decimal(
        encode_utf8(envelope).len(),
    ) + "\r\nSOAPAction: \""@ + service_type + "#"@ + action
        + "\"\r\nConnection: close\r\n\r\n"@ + envelope
}

/// The SOAP envelope for the requested action.
fn soap_envelope(service_type: &str, action: &str, arguments: &str) -> (envelope: String)
    ensures
        envelope@ == envelope_text(service_type@, action@, arguments@),
{
    let mut envelope = "<?xml version=\"1.0\"?><s:Envelope xmlns:s=\"http://schemas.xmlsoap.org/soap/envelope/\" s:encodingStyle=\"http://schemas.xmlsoap.org/soap/encoding/\"><s:Body><u:".to_owned();
    envelope.append(action);
    envelope.append(" xmlns:u=\"");
    envelope.append(service_type);
    envelope.append("\">");
    envelope.append(arguments);
    envelope.append("</u:");
    envelope.append(action);
    envelope.append("></s:Body></s:Envelope>");
    envelope
}

/// The HTTP request to perform a SOAP action against the control endpoint. `host_ip` is the text
/// of the IP address of the endpoint.
pub fn soap_request(
    endpoint: &ControlEndpoint,
    host_ip: &str,
    action: &str,
    arguments: &str,
) -> (request: String)
    ensures
        request@ == soap_text(
            endpoint.control_path@,
            url::host_value(endpoint.address, host_ip@),
            endpoint.service.spec_service_type(),
            action@,
            envelope_text(endpoint.service.spec_service_type(), action@, arguments@),
        ),
{
    let service_type = endpoint.service.service_type();
    let envelope = soap_envelope(service_type, action, arguments);
    let host = host_header(&endpoint.address, host_ip);
    let length: usize = envelope.as_str().as_bytes().len();

    let mut request = "POST ".to_owned();
    request.append(endpoint.control_path.as_str());
    request.append(" HTTP/1.1\r\nHost: ");
    request.append(host.as_str());
    request.append("\r\nContent-Type: text/xml; charset=\"utf-8\"\r\nContent-Length: ");
    append_decimal(&mut request, length as u64);
    request.append("\r\nSOAPAction: \"");
    request.append(service_type);
    request.append("#");
    request.append(action);
    request.append("\"\r\nConnection: close\r\n\r\n");
    request.append(envelope.as_str());
    request
}

/// The UPnP error in a response body, if it contains one.
pub open spec fn body_error(body: Seq<char>) -> Option<Failure> {
    match xml::tag_value(body, "errorCode"@) {
        Some(code) => Some(
            match text::parse_unsigned(code, 10, u16::MAX as nat) {
                Some(n) => failure::failure_for(n as u16),
                None => Failure::InvalidResponse(InvalidResponseKind::ErrorResponse),
            },
        ),
        None => None,
    }
}

/// Extract the UPnP error from a response body, if it contains one.
pub fn response_error(response: &str) -> (error: Option<Failure>)
    ensures
        error == body_error(response@),
{
    let code = match find_tag_value(response, "errorCode") {
        Some(code) => code,
        None => {
            return None;
        },
    };
    let chars = chars_of(code);
    let all = scan::whole(chars.as_slice());
    match span_number(chars.as_slice(), all, 10, u16::MAX as u64) {
        Some(n) => Some(code_to_failure(n as u16)),
        None => Some(Failure::InvalidResponse(InvalidResponseKind::ErrorResponse)),
    }
}

/// The reason why a response to a SOAP action reports a failure, if it does. Some gateways return
/// error responses with a success or unrelated status code, so an error code in the body takes
/// precedence over the status line.
pub open spec fn soap_failure(status: u16, body: Seq<char>) -> Option<Failure> {
    if body_error(body) is Some {
        body_error(body)
    } else if status == 200 {
        None
    } else if status == 500 {
        Some(Failure::InvalidResponse(InvalidResponseKind::ErrorResponse))
    } else {
        Some(Failure::HttpStatus(status))
    }
}

/// The response body of a SOAP action, given the outcome of its HTTP exchange. UPnP error
/// responses are returned as the `Failure` matching their error code,
/// see <https://openconnectivity.org/upnp-specs/UPnP-arch-DeviceArchitecture-v1.1.pdf> section 3.
pub fn soap_response(exchange: Result<HttpResponse, Failure>) -> (body: Result<String, Failure>)
    ensures
        match exchange {
            Err(e) => body == Err::<String, _>(e),
            Ok(response) => match soap_failure(response.status, response.body@) {
                Some(e) => body == Err::<String, _>(e),
                None => body is Ok && body->Ok_0@ == response.body@,
            },
        },
{
    let response = match exchange {
        Ok(response) => response,
        Err(e) => {
            return Err(e);
        },
    };
    match response_error(response.body.as_str()) {
        Some(e) => Err(e),
        None => match response.status {
            200 => Ok(response.body),

            // UPnP errors are specified to use an internal server error status; reaching
            // this without an error code in the body means the response is invalid.
            500 => Err(Failure::InvalidResponse(InvalidResponseKind::ErrorResponse)),

            // Any other status code is unexpected for a SOAP exchange.
            status => Err(Failure::HttpStatus(status)),
        },
    }
}

/// Whether the text of a connection status means an established connection. Firmware derived
/// from other specification lineages may report `Up` instead of `Connected`.
pub open spec fn means_connected(status: Seq<char>) -> bool {
    text::eq_ignore_case(status, "Connected"@) || text::eq_ignore_case(status, "Up"@)
}

/// Best-effort check of whether the WAN connection service reports an established connection.
/// Returns `None` if the gateway does not give a valid response to the `GetStatusInfo` action,
/// whose outcome is given.
pub fn connection_status(response: &Result<String, Failure>) -> (connected: Option<bool>)
    ensures
        connected == (match response {
            Ok(body) => match xml::tag_value(body@, "NewConnectionStatus"@) {
                Some(status) => Some(means_connected(status)),
                None => None,
            },
            Err(_) => None,
        }),
{
    let body = match response {
        Ok(body) => body,
        Err(_) => {
            return None;
        },
    };
    match find_tag_value(body.as_str(), "NewConnectionStatus") {
        Some(status) => {
            let chars = chars_of(status);
            let all = scan::whole(chars.as_slice());
            Some(
                span_eq_ignore_case(chars.as_slice(), all, "Connected") || span_eq_ignore_case(
                    chars.as_slice(),
                    all,
                    "Up",
                ),
            )
        },
        None => None,
    }
}

/// Whether a failure says that a tag is missing from a response.
pub open spec fn is_missing_tag(failure: Failure, tag: Seq<char>) -> bool {
    failure matches Failure::InvalidResponse(InvalidResponseKind::MissingTag(t)) && t@ == tag
}

/// Whether a failure says that the value of a tag could not be parsed.
pub open spec fn is_invalid_value(failure: Failure, tag: Seq<char>, value: Seq<char>) -> bool {
    failure matches Failure::InvalidResponse(InvalidResponseKind::InvalidValue { tag: t, value: v })
        && t@ == tag && v@ == value
}

/// The text of the external IP address in a response to the `GetExternalIPAddress` action.
pub fn external_address_text(response: &str) -> (address: Option<&str>)
    ensures
        match address {
            Some(a) => xml::tag_value(response@, "NewExternalIPAddress"@) == Some(a@),
            None => xml::tag_value(response@, "NewExternalIPAddress"@) is None,
        },
{
    find_tag_value(response, "NewExternalIPAddress")
}

/// Whether an external IP address, or a failure, is what the outcome of the
/// `GetExternalIPAddress` action gives. `parsed` is what the text of the address parses to.
pub open spec fn is_external_address(
    response: Result<String, Failure>,
    parsed: Option<IpAddr>,
    address: Result<IpAddr, Failure>,
) -> bool {
    match response {
        Err(e) => address == Err::<IpAddr, _>(e),
        Ok(body) => match xml::tag_value(body@, "NewExternalIPAddress"@) {
            None => address is Err && is_missing_tag(
                address->Err_0,
                "NewExternalIPAddress"@,
            ),
            Some(value) => if value.len() == 0 {
                address == Ok::<_, Failure>(IpAddr::spec_unspecified())
            } else {
                match parsed {
                    Some(ip) => address == Ok::<_, Failure>(ip),
                    None => address is Err && is_invalid_value(
                        address->Err_0,
                        "NewExternalIPAddress"@,
                        value,
                    ),
                }
            },
        },
    }
}

/// The external IP address of the gateway, given the outcome of the `GetExternalIPAddress`
/// action. `parsed` is the IP address that the text found by `external_address_text` parses to.
/// Gateways without an established WAN connection may report an empty address.
pub fn external_address(response: Result<String, Failure>, parsed: Option<IpAddr>) -> (address:
    Result<IpAddr, Failure>)
    ensures
        is_external_address(response, parsed, address),
{
    let body = match response {
        Ok(body) => body,
        Err(e) => {
            return Err(e);
        },
    };
    match external_address_text(body.as_str()) {
        Some(value) => if value.is_empty() {
            Ok(IpAddr::unspecified())
        } else {
            match parsed {
                Some(ip) => Ok(ip),
                None => Err(
                    Failure::InvalidResponse(
                        InvalidResponseKind::InvalidValue {
                            tag: "NewExternalIPAddress",
                            value: value.to_owned(),
                        },
                    ),
                ),
            }
        },
        None => Err(
            Failure::InvalidResponse(InvalidResponseKind::MissingTag("NewExternalIPAddress")),
        ),
    }
}

/// Whether a port, or a failure, is what a response to the `AddAnyPortMapping` action reserves.
pub open spec fn is_reserved_port(response: Seq<char>, port: Result<NonZeroU16, Failure>) -> bool {
    match xml::tag_value(response, "NewReservedPort"@) {
        None => port is Err && is_missing_tag(port->Err_0, "NewReservedPort"@),
        Some(value) => match text::parse_unsigned(value, 10, u16::MAX as nat) {
            Some(n) if n > 0 => port is Ok && port->Ok_0.spec_get() == n,
            _ => port is Err && is_invalid_value(port->Err_0, "NewReservedPort"@, value),
        },
    }
}

/// Read the external port reserved by an `AddAnyPortMapping` response.
pub fn reserved_port(response: &str) -> (port: Result<NonZeroU16, Failure>)
    ensures
        is_reserved_port(response@, port),
{
    let value = match find_tag_value(response, "NewReservedPort") {
        Some(value) => value,
        None => {
            return Err(
                Failure::InvalidResponse(InvalidResponseKind::MissingTag("NewReservedPort")),
            );
        },
    };
    let chars = chars_of(value);
    let all = scan::whole(chars.as_slice());
    let number: Option<u64> = span_number(chars.as_slice(), all, 10, u16::MAX as u64);
    let port = match number {
        Some(n) => NonZeroU16::new(n as u16),
        None => None,
    };
    match port {
        Some(p) => Ok(p),
        None => Err(
            Failure::InvalidResponse(
                InvalidResponseKind::InvalidValue {
                    tag: "NewReservedPort",
                    value: value.to_owned(),
                },
            ),
        ),
    }
}

/// The arguments of the `AddPortMapping` and `AddAnyPortMapping` actions.
pub open spec fn add_arguments(
    external_port: u16,
    protocol: InternetProtocol,
    internal_port: u16,
    client: Seq<char>,
    lifetime_seconds: u32,
) -> Seq<char> {
    "<NewRemoteHost></NewRemoteHost><NewExternalPort>"@ + text::decimal(external_port as nat)
        + "</NewExternalPort><NewProtocol>"@ + protocol.spec_text()
        + "</NewProtocol><NewInternalPort>"@ + text::decimal(internal_port as nat)
        + "</NewInternalPort><NewInternalClient>"@ + client
        + "</NewInternalClient><NewEnabled>1</NewEnabled><NewPortMappingDescription>"@
        + PORT_MAPPING_DESCRIPTION@
        + "</NewPortMappingDescription><NewLeaseDuration>"@ + text::decimal(
        lifetime_seconds as nat,
    ) + "</NewLeaseDuration>"@
}

/// Format the shared arguments of the `AddPortMapping` and `AddAnyPortMapping` actions. `client`
/// is the text of the client's IP address.
pub fn map_arguments(
    external_port: NonZeroU16,
    protocol: InternetProtocol,
    internal_port: NonZeroU16,
    client: &str,
    lifetime_seconds: u32,
) -> (arguments: String)
    ensures
        arguments@ == add_arguments(
            external_port.spec_get(),
            protocol,
            internal_port.spec_get(),
            client@,
            lifetime_seconds,
        ),
{
    let mut arguments = "<NewRemoteHost></NewRemoteHost><NewExternalPort>".to_owned();
    append_decimal(&mut arguments, external_port.get() as u64);
    arguments.append("</NewExternalPort><NewProtocol>");
    arguments.append(protocol.text());
    arguments.append("</NewProtocol><NewInternalPort>");
    append_decimal(&mut arguments, internal_port.get() as u64);
    arguments.append("</NewInternalPort><NewInternalClient>");
    arguments.append(client);
    arguments.append(
        "</NewInternalClient><NewEnabled>1</NewEnabled><NewPortMappingDescription>",
    );
    arguments.append(PORT_MAPPING_DESCRIPTION);
    arguments.append("</NewPortMappingDescription><NewLeaseDuration>");
    append_decimal(&mut arguments, lifetime_seconds as u64);
    arguments.append("</NewLeaseDuration>");
    arguments
}

/// A literal between two values of the arguments of an action closes one tag and opens another.
proof fn lemma_between(
    closed: Seq<char>,
    value: Seq<char>,
    literal: Seq<char>,
    opened: Seq<char>,
    rest: Seq<char>,
)
    requires
        literal == seq!['<', '/'] + closed + seq!['>', '<'] + opened + seq!['>'],
    ensures
        seq!['<'] + closed + seq!['>'] + (value + (literal + rest)) == xml::element(closed, value) + (
        seq!['<'] + opened + seq!['>'] + rest),
{
    assert(seq!['<'] + closed + seq!['>'] + (value + (literal + rest)) =~= xml::element(
        closed,
        value,
    ) + (seq!['<'] + opened + seq!['>'] + rest));
}

/// Putting texts together is associative.
proof fn lemma_associative(a: Seq<char>, b: Seq<char>, c: Seq<char>)
    ensures
        a + b + c == a + (b + c),
{
    assert(a + b + c =~= a + (b + c));
}

/// The arguments of an action that adds a mapping are elements, one for each argument.
#[verifier::rlimit(40)]
proof fn lemma_add_arguments(
    external_port: u16,
    protocol: InternetProtocol,
    internal_port: u16,
    client: Seq<char>,
    lifetime_seconds: u32,
)
    ensures
        add_arguments(external_port, protocol, internal_port, client, lifetime_seconds)
            == xml::element("NewRemoteHost"@, ""@) + (xml::element(
            "NewExternalPort"@,
            text::decimal(external_port as nat),
        ) + (xml::element("NewProtocol"@, protocol.spec_text()) + (xml::element(
            "NewInternalPort"@,
            text::decimal(internal_port as nat),
        ) + (xml::element("NewInternalClient"@, client) + (xml::element("NewEnabled"@, "1"@) + (
        xml::element("NewPortMappingDescription"@, PORT_MAPPING_DESCRIPTION@) + xml::element(
            "NewLeaseDuration"@,
            text::decimal(lifetime_seconds as nat),
        ))))))),
{
    let l0 = "<NewRemoteHost></NewRemoteHost><NewExternalPort>"@;
    let v1 = text::decimal(external_port as nat);
    let l1 = "</NewExternalPort><NewProtocol>"@;
    let v2 = protocol.spec_text();
    let l2 = "</NewProtocol><NewInternalPort>"@;
    let v3 = text::decimal(internal_port as nat);
    let l3 = "</NewInternalPort><NewInternalClient>"@;
    let l4 = "</NewInternalClient><NewEnabled>1</NewEnabled><NewPortMappingDescription>"@;
    let v5 = PORT_MAPPING_DESCRIPTION@;
    let l5 = "</NewPortMappingDescription><NewLeaseDuration>"@;
    let v6 = text::decimal(lifetime_seconds as nat);
    let l6 = "</NewLeaseDuration>"@;
    let r5 = v5 + (l5 + (v6 + l6));
    let r4 = client + (l4 + r5);
    let r3 = v3 + (l3 + r4);
    let r2 = v2 + (l2 + r3);
    let r1 = v1 + (l1 + r2);
    assert(add_arguments(external_port, protocol, internal_port, client, lifetime_seconds) == l0
        + r1) by {
        let p1 = l0 + v1;
        let p2 = p1 + l1;
        let p3 = p2 + v2;
        let p4 = p3 + l2;
        let p5 = p4 + v3;
        let p6 = p5 + l3;
        let p7 = p6 + client;
        let p8 = p7 + l4;
        let p9 = p8 + v5;
        let p10 = p9 + l5;
        lemma_associative(p10, v6, l6);
        lemma_associative(p9, l5, v6 + l6);
        lemma_associative(p8, v5, l5 + (v6 + l6));
        lemma_associative(p7, l4, r5);
        lemma_associative(p6, client, l4 + r5);
        lemma_associative(p5, l3, r4);
        lemma_associative(p4, v3, l3 + r4);
        lemma_associative(p3, l2, r3);
        lemma_associative(p2, v2, l2 + r3);
        lemma_associative(p1, l1, r2);
        lemma_associative(l0, v1, l1 + r2);
    }
    let remote_host = "NewRemoteHost"@;
    let external = "NewExternalPort"@;
    let mapped = "NewProtocol"@;
    let internal = "NewInternalPort"@;
    let address = "NewInternalClient"@;
    let enabled = "NewEnabled"@;
    let described = "NewPortMappingDescription"@;
    let lease = "NewLeaseDuration"@;
    let between = seq!['>', '<'];
    assert(l0 + r1 == xml::element(remote_host, ""@) + (seq!['<'] + external + seq!['>'] + r1)) by {
        reveal_strlit("<NewRemoteHost></NewRemoteHost><NewExternalPort>");
        reveal_strlit("NewRemoteHost");
        reveal_strlit("");
        reveal_strlit("NewExternalPort");
        assert(l0 =~= xml::element(remote_host, ""@) + (seq!['<'] + external + seq!['>']));
        assert(l0 + r1 =~= xml::element(remote_host, ""@) + (seq!['<'] + external + seq!['>'] + r1));
    }
    assert(l1 == seq!['<', '/'] + external + between + mapped + seq!['>']) by {
        reveal_strlit("</NewExternalPort><NewProtocol>");
        reveal_strlit("NewExternalPort");
        reveal_strlit("NewProtocol");
        assert(l1 =~= seq!['<', '/'] + external + between + mapped + seq!['>']);
    }
    lemma_between(external, v1, l1, mapped, r2);
    assert(l2 == seq!['<', '/'] + mapped + between + internal + seq!['>']) by {
        reveal_strlit("</NewProtocol><NewInternalPort>");
        reveal_strlit("NewProtocol");
        reveal_strlit("NewInternalPort");
        assert(l2 =~= seq!['<', '/'] + mapped + between + internal + seq!['>']);
    }
    lemma_between(mapped, v2, l2, internal, r3);
    assert(l3 == seq!['<', '/'] + internal + between + address + seq!['>']) by {
        reveal_strlit("</NewInternalPort><NewInternalClient>");
        reveal_strlit("NewInternalPort");
        reveal_strlit("NewInternalClient");
        assert(l3 =~= seq!['<', '/'] + internal + between + address + seq!['>']);
    }
    lemma_between(internal, v3, l3, address, r4);
    let first = seq!['<', '/'] + address + between + enabled + seq!['>'];
    let second = seq!['<', '/'] + enabled + between + described + seq!['>'];
    assert(l4 + r5 == first + ("1"@ + (second + r5))) by {
        reveal_strlit("</NewInternalClient><NewEnabled>1</NewEnabled><NewPortMappingDescription>");
        reveal_strlit("NewInternalClient");
        reveal_strlit("NewEnabled");
        reveal_strlit("1");
        reveal_strlit("NewPortMappingDescription");
        assert(l4 =~= first + ("1"@ + second));
        assert(l4 + r5 =~= first + ("1"@ + (second + r5)));
    }
    lemma_between(address, client, first, enabled, "1"@ + (second + r5));
    lemma_between(enabled, "1"@, second, described, r5);
    assert(l5 == seq!['<', '/'] + described + between + lease + seq!['>']) by {
        reveal_strlit("</NewPortMappingDescription><NewLeaseDuration>");
        reveal_strlit("NewPortMappingDescription");
        reveal_strlit("NewLeaseDuration");
        assert(l5 =~= seq!['<', '/'] + described + between + lease + seq!['>']);
    }
    lemma_between(described, v5, l5, lease, v6 + l6);
    assert(seq!['<'] + lease + seq!['>'] + (v6 + l6) == xml::element(lease, v6)) by {
        reveal_strlit("</NewLeaseDuration>");
        reveal_strlit("NewLeaseDuration");
        assert(l6 =~= seq!['<', '/'] + lease + seq!['>']);
        assert(seq!['<'] + lease + seq!['>'] + (v6 + l6) =~= xml::element(lease, v6));
    }
}

/// The arguments of an action that adds a mapping, by name.
spec fn add_list(
    external_port: u16,
    protocol: InternetProtocol,
    internal_port: u16,
    client: Seq<char>,
    lifetime_seconds: u32,
) -> Seq<(Seq<char>, Seq<char>)> {
    seq![
        ("NewRemoteHost"@, ""@),
        ("NewExternalPort"@, text::decimal(external_port as nat)),
        ("NewProtocol"@, protocol.spec_text()),
        ("NewInternalPort"@, text::decimal(internal_port as nat)),
        ("NewInternalClient"@, client),
        ("NewEnabled"@, "1"@),
        ("NewPortMappingDescription"@, PORT_MAPPING_DESCRIPTION@),
        ("NewLeaseDuration"@, text::decimal(lifetime_seconds as nat)),
    ]
}

/// Elements begin with the first of them.
proof fn lemma_elements_first(
    tag: Seq<char>,
    value: Seq<char>,
    list: Seq<(Seq<char>, Seq<char>)>,
    rest: Seq<(Seq<char>, Seq<char>)>,
)
    requires
        list == seq![(tag, value)] + rest,
    ensures
        xml::elements(list) == xml::element(tag, value) + xml::elements(rest),
{
    assert(list.skip(1) =~= rest);
    assert(list[0] == (tag, value));
}

/// The arguments of an action that adds a mapping are the elements of the list.
#[verifier::rlimit(40)]
proof fn lemma_add_list(
    external_port: u16,
    protocol: InternetProtocol,
    internal_port: u16,
    client: Seq<char>,
    lifetime_seconds: u32,
)
    ensures
        add_arguments(external_port, protocol, internal_port, client, lifetime_seconds)
            == xml::elements(
            add_list(external_port, protocol, internal_port, client, lifetime_seconds),
        ),
{
    lemma_add_arguments(external_port, protocol, internal_port, client, lifetime_seconds);
    let list = add_list(external_port, protocol, internal_port, client, lifetime_seconds);
    assert forall|k: int| 0 <= k < 8 implies xml::elements(#[trigger] list.skip(k)) == xml::element(
        list[k].0,
        list[k].1,
    ) + xml::elements(list.skip(k + 1)) by {
        assert(list.skip(k) =~= seq![(list[k].0, list[k].1)] + list.skip(k + 1));
        lemma_elements_first(list[k].0, list[k].1, list.skip(k), list.skip(k + 1));
    }
    assert(list.skip(0) =~= list);
    assert(list.skip(8).len() == 0);
    assert(xml::elements(list.skip(8)) =~= seq![]);
    let last = xml::element(list[7].0, list[7].1);
    assert(last + xml::elements(list.skip(8)) =~= last);
}

/// The names of the arguments are names of tags.
proof fn lemma_argument_names()
    ensures
        xml::is_name("NewRemoteHost"@),
        xml::is_name("NewExternalPort"@),
        xml::is_name("NewProtocol"@),
        xml::is_name("NewInternalPort"@),
        xml::is_name("NewInternalClient"@),
        xml::is_name("NewEnabled"@),
        xml::is_name("NewPortMappingDescription"@),
        xml::is_name("NewLeaseDuration"@),
{
    reveal_strlit("NewRemoteHost");
    reveal_strlit("NewExternalPort");
    reveal_strlit("NewProtocol");
    reveal_strlit("NewInternalPort");
    reveal_strlit("NewInternalClient");
    reveal_strlit("NewEnabled");
    reveal_strlit("NewPortMappingDescription");
    reveal_strlit("NewLeaseDuration");
}

/// A mapping is added as it was asked for, enabled and for any remote host: reading the arguments
/// of the action back gives the ports, the protocol, the client and the lifetime.
pub proof fn law_added_mapping_is_read_back(
    external_port: u16,
    protocol: InternetProtocol,
    internal_port: u16,
    client: Seq<char>,
    lifetime_seconds: u32,
)
    requires
        !client.contains('<'),
    ensures
        ({
            let arguments = add_arguments(
                external_port,
                protocol,
                internal_port,
                client,
                lifetime_seconds,
            );
            &&& xml::tag_value(arguments, "NewEnabled"@) == Some("1"@)
            &&& xml::tag_value(arguments, "NewRemoteHost"@) == Some(Seq::<char>::empty())
            &&& xml::tag_value(arguments, "NewExternalPort"@) == Some(
                text::decimal(external_port as nat),
            )
            &&& protocol is Tcp ==> xml::tag_value(arguments, "NewProtocol"@) == Some("TCP"@)
            &&& protocol is Udp ==> xml::tag_value(arguments, "NewProtocol"@) == Some("UDP"@)
            &&& xml::tag_value(arguments, "NewInternalPort"@) == Some(
                text::decimal(internal_port as nat),
            )
            &&& xml::tag_value(arguments, "NewInternalClient"@) == Some(text::trim(client))
            &&& (forall|k: int| 0 <= k < client.len() ==> !text::is_whitespace(#[trigger] client[k]))
                ==> xml::tag_value(arguments, "NewInternalClient"@) == Some(client)
            &&& xml::tag_value(arguments, "NewLeaseDuration"@) == Some(
                text::decimal(lifetime_seconds as nat),
            )
            &&& xml::tag_value(arguments, "NewPortMappingDescription"@) == Some("crab_nat"@)
        }),
{
    let list = add_list(external_port, protocol, internal_port, client, lifetime_seconds);
    lemma_add_list(external_port, protocol, internal_port, client, lifetime_seconds);
    lemma_argument_names();
    lemma_argument_values(external_port as nat, protocol);
    lemma_argument_values(internal_port as nat, protocol);
    lemma_argument_values(lifetime_seconds as nat, protocol);
    assert(xml::are_plain(list));
    reveal_strlit("NewRemoteHost");
    reveal_strlit("NewExternalPort");
    reveal_strlit("NewProtocol");
    reveal_strlit("NewInternalPort");
    reveal_strlit("NewInternalClient");
    reveal_strlit("NewEnabled");
    reveal_strlit("NewPortMappingDescription");
    reveal_strlit("NewLeaseDuration");
    assert("NewInternalPort"@[3] == 'I');
    assert("NewExternalPort"@[3] == 'E');
    let nothing: Seq<char> = seq![];
    assert(nothing + client + nothing =~= client);
    if forall|k: int| 0 <= k < client.len() ==> !text::is_whitespace(#[trigger] client[k]) {
        text::law_trim_undoes_padding(nothing, client, nothing);
    }
    xml::law_element_is_found_among_others(list, "NewRemoteHost"@, 0);
    xml::law_element_is_found_among_others(list, "NewExternalPort"@, 1);
    xml::law_element_is_found_among_others(list, "NewProtocol"@, 2);
    xml::law_element_is_found_among_others(list, "NewInternalPort"@, 3);
    xml::law_element_is_found_among_others(list, "NewInternalClient"@, 4);
    xml::law_element_is_found_among_others(list, "NewEnabled"@, 5);
    xml::law_element_is_found_among_others(list, "NewPortMappingDescription"@, 6);
    xml::law_element_is_found_among_others(list, "NewLeaseDuration"@, 7);
}

/// The values of the arguments hold no tag, and no whitespace around them.
proof fn lemma_argument_values(n: nat, protocol: InternetProtocol)
    ensures
        !text::decimal(n).contains('<'),
        text::trim(text::decimal(n)) == text::decimal(n),
        !protocol.spec_text().contains('<'),
        text::trim(protocol.spec_text()) == protocol.spec_text(),
        !PORT_MAPPING_DESCRIPTION@.contains('<'),
        text::trim(PORT_MAPPING_DESCRIPTION@) == PORT_MAPPING_DESCRIPTION@,
        !"1"@.contains('<'),
        text::trim("1"@) == "1"@,
        !""@.contains('<'),
        text::trim(""@) == Seq::<char>::empty(),
{
    text::lemma_decimal_characters(n);
    reveal_strlit("UDP");
    reveal_strlit("TCP");
    reveal_strlit("crab_nat");
    reveal_strlit("1");
    reveal_strlit("");
    let nothing: Seq<char> = seq![];
    text::law_trim_undoes_padding(nothing, protocol.spec_text(), nothing);
    assert(nothing + protocol.spec_text() + nothing =~= protocol.spec_text());
    text::law_trim_undoes_padding(nothing, "crab_nat"@, nothing);
    assert(nothing + "crab_nat"@ + nothing =~= "crab_nat"@);
    text::law_trim_undoes_padding(nothing, "1"@, nothing);
    assert(nothing + "1"@ + nothing =~= "1"@);
    text::law_trim_undoes_padding(nothing, ""@, nothing);
    assert(nothing + ""@ + nothing =~= nothing);
    assert(""@ =~= nothing);
}

/// The arguments of the `DeletePortMapping` action.
pub open spec fn delete_arguments(external_port: u16, protocol: InternetProtocol) -> Seq<char> {
    "<NewRemoteHost></NewRemoteHost><NewExternalPort>"@ + text::decimal(external_port as nat)
        + "</NewExternalPort><NewProtocol>"@ + protocol.spec_text() + "</NewProtocol>"@
}

/// The arguments of the `DeletePortMapping` action. The gateway identifies mappings by their
/// external port and protocol alone.
pub fn drop_arguments(external_port: NonZeroU16, protocol: InternetProtocol) -> (arguments: String)
    ensures
        arguments@ == delete_arguments(external_port.spec_get(), protocol),
{
    let mut arguments = "<NewRemoteHost></NewRemoteHost><NewExternalPort>".to_owned();
    append_decimal(&mut arguments, external_port.get() as u64);
    arguments.append("</NewExternalPort><NewProtocol>");
    arguments.append(protocol.text());
    arguments.append("</NewProtocol>");
    arguments
}

/// The arguments of the action that deletes a mapping are elements, one for each argument.
#[verifier::rlimit(40)]
proof fn lemma_delete_list(external_port: u16, protocol: InternetProtocol)
    ensures
        delete_arguments(external_port, protocol) == xml::elements(
            seq![
                ("NewRemoteHost"@, ""@),
                ("NewExternalPort"@, text::decimal(external_port as nat)),
                ("NewProtocol"@, protocol.spec_text()),
            ],
        ),
{
    let l0 = "<NewRemoteHost></NewRemoteHost><NewExternalPort>"@;
    let v1 = text::decimal(external_port as nat);
    let l1 = "</NewExternalPort><NewProtocol>"@;
    let v2 = protocol.spec_text();
    let l2 = "</NewProtocol>"@;
    let remote_host = "NewRemoteHost"@;
    let external = "NewExternalPort"@;
    let mapped = "NewProtocol"@;
    let r1 = v1 + (l1 + (v2 + l2));
    lemma_associative(l0 + v1 + l1, v2, l2);
    lemma_associative(l0 + v1, l1, v2 + l2);
    lemma_associative(l0, v1, l1 + (v2 + l2));
    assert(l0 + r1 == xml::element(remote_host, ""@) + (seq!['<'] + external + seq!['>'] + r1)) by {
        reveal_strlit("<NewRemoteHost></NewRemoteHost><NewExternalPort>");
        reveal_strlit("NewRemoteHost");
        reveal_strlit("");
        reveal_strlit("NewExternalPort");
        assert(l0 =~= xml::element(remote_host, ""@) + (seq!['<'] + external + seq!['>']));
        assert(l0 + r1 =~= xml::element(remote_host, ""@) + (seq!['<'] + external + seq!['>'] + r1));
    }
    assert(l1 == seq!['<', '/'] + external + seq!['>', '<'] + mapped + seq!['>']) by {
        reveal_strlit("</NewExternalPort><NewProtocol>");
        reveal_strlit("NewExternalPort");
        reveal_strlit("NewProtocol");
        assert(l1 =~= seq!['<', '/'] + external + seq!['>', '<'] + mapped + seq!['>']);
    }
    lemma_between(external, v1, l1, mapped, v2 + l2);
    assert(seq!['<'] + mapped + seq!['>'] + (v2 + l2) == xml::element(mapped, v2)) by {
        reveal_strlit("</NewProtocol>");
        reveal_strlit("NewProtocol");
        assert(l2 =~= seq!['<', '/'] + mapped + seq!['>']);
        assert(seq!['<'] + mapped + seq!['>'] + (v2 + l2) =~= xml::element(mapped, v2));
    }
    let list = seq![(remote_host, ""@), (external, v1), (mapped, v2)];
    let rest1 = seq![(external, v1), (mapped, v2)];
    let rest2 = seq![(mapped, v2)];
    let nothing: Seq<(Seq<char>, Seq<char>)> = seq![];
    assert(list =~= seq![(remote_host, ""@)] + rest1);
    assert(rest1 =~= seq![(external, v1)] + rest2);
    assert(rest2 =~= seq![(mapped, v2)] + nothing);
    lemma_elements_first(remote_host, ""@, list, rest1);
    lemma_elements_first(external, v1, rest1, rest2);
    lemma_elements_first(mapped, v2, rest2, nothing);
    assert(xml::element(mapped, v2) + xml::elements(nothing) =~= xml::element(mapped, v2));
}

/// A mapping is deleted by what it was added with: reading the arguments of the action back gives
/// the external port, the protocol and the remote host that the action which added it carried, and
/// nothing that would restrict the deletion further.
pub proof fn law_deleted_mapping_is_the_added_one(
    external_port: u16,
    protocol: InternetProtocol,
    internal_port: u16,
    client: Seq<char>,
    lifetime_seconds: u32,
)
    requires
        !client.contains('<'),
    ensures
        ({
            let deleted = delete_arguments(external_port, protocol);
            let added = add_arguments(
                external_port,
                protocol,
                internal_port,
                client,
                lifetime_seconds,
            );
            &&& xml::tag_value(deleted, "NewExternalPort"@) == Some(
                text::decimal(external_port as nat),
            )
            &&& xml::tag_value(deleted, "NewExternalPort"@) == xml::tag_value(
                added,
                "NewExternalPort"@,
            )
            &&& xml::tag_value(deleted, "NewProtocol"@) == xml::tag_value(added, "NewProtocol"@)
            &&& xml::tag_value(deleted, "NewProtocol"@) is Some
            &&& xml::tag_value(deleted, "NewRemoteHost"@) == xml::tag_value(added, "NewRemoteHost"@)
            &&& xml::tag_value(deleted, "NewRemoteHost"@) is Some
            &&& xml::tag_value(deleted, "NewInternalPort"@) is None
            &&& xml::tag_value(deleted, "NewInternalClient"@) is None
        }),
{
    law_added_mapping_is_read_back(
        external_port,
        protocol,
        internal_port,
        client,
        lifetime_seconds,
    );
    lemma_delete_list(external_port, protocol);
    lemma_argument_names();
    lemma_argument_values(external_port as nat, protocol);
    let list = seq![
        ("NewRemoteHost"@, ""@),
        ("NewExternalPort"@, text::decimal(external_port as nat)),
        ("NewProtocol"@, protocol.spec_text()),
    ];
    assert(xml::are_plain(list));
    reveal_strlit("NewRemoteHost");
    reveal_strlit("NewExternalPort");
    reveal_strlit("NewProtocol");
    reveal_strlit("NewInternalPort");
    reveal_strlit("NewInternalClient");
    assert("NewInternalPort"@[3] == 'I');
    assert("NewExternalPort"@[3] == 'E');
    xml::law_element_is_found_among_others(list, "NewRemoteHost"@, 0);
    xml::law_element_is_found_among_others(list, "NewExternalPort"@, 1);
    xml::law_element_is_found_among_others(list, "NewProtocol"@, 2);
    xml::law_element_is_found_among_others(list, "NewInternalPort"@, 3);
    xml::law_element_is_found_among_others(list, "NewInternalClient"@, 3);
}

/// A service reports an established connection exactly when its status is the word Connected or
/// the word Up, in capital or small letters. No other status, such as one that says that the
/// service is unconfigured, connecting or disconnecting, is one.
pub proof fn law_status_means_connected(status: Seq<char>)
    ensures
        means_connected(status) <==> {
            ||| {
                &&& status.len() == 9
                &&& status[0] == 'C' || status[0] == 'c'
                &&& status[1] == 'o' || status[1] == 'O'
                &&& status[2] == 'n' || status[2] == 'N'
                &&& status[3] == 'n' || status[3] == 'N'
                &&& status[4] == 'e' || status[4] == 'E'
                &&& status[5] == 'c' || status[5] == 'C'
                &&& status[6] == 't' || status[6] == 'T'
                &&& status[7] == 'e' || status[7] == 'E'
                &&& status[8] == 'd' || status[8] == 'D'
            }
            ||| {
                &&& status.len() == 2
                &&& status[0] == 'U' || status[0] == 'u'
                &&& status[1] == 'p' || status[1] == 'P'
            }
        },
{
    reveal_strlit("Connected");
    reveal_strlit("Up");
    let long = "Connected"@;
    let short = "Up"@;
    if status.len() == 9 {
        text::lemma_letter(status[0], 'C', 'c');
        text::lemma_letter(status[1], 'O', 'o');
        text::lemma_letter(status[2], 'N', 'n');
        text::lemma_letter(status[3], 'N', 'n');
        text::lemma_letter(status[4], 'E', 'e');
        text::lemma_letter(status[5], 'C', 'c');
        text::lemma_letter(status[6], 'T', 't');
        text::lemma_letter(status[7], 'E', 'e');
        text::lemma_letter(status[8], 'D', 'd');
        assert(long[0] == 'C' && long[1] == 'o' && long[2] == 'n' && long[3] == 'n' && long[4]
            == 'e' && long[5] == 'c' && long[6] == 't' && long[7] == 'e' && long[8] == 'd');
    }
    if status.len() == 2 {
        text::lemma_letter(status[0], 'U', 'u');
        text::lemma_letter(status[1], 'P', 'p');
        assert(short[0] == 'U' && short[1] == 'p');
    }
}

/// An error code in the body of a response is the reason for a failure, whatever the status of the
/// response. Without one, a response is a success exactly when its status is 200.
pub proof fn law_error_codes_take_precedence(status: u16, body: Seq<char>, code: u16)
    ensures
        xml::tag_value(body, "errorCode"@) == Some(text::decimal(code as nat)) ==> soap_failure(
            status,
            body,
        ) == Some(failure::failure_for(code)),
        xml::tag_value(body, "errorCode"@) is Some ==> soap_failure(status, body) is Some,
        xml::tag_value(body, "errorCode"@) is None ==> {
            &&& soap_failure(status, body) is None <==> status == 200
            &&& status == 500 ==> soap_failure(status, body) == Some(
                Failure::InvalidResponse(InvalidResponseKind::ErrorResponse),
            )
            &&& status != 200 && status != 500 ==> soap_failure(status, body) == Some(
                Failure::HttpStatus(status),
            )
        },
{
    text::law_decimal_is_read(code as nat, u16::MAX as nat);
}

/// The port that a gateway reserved is read from its response as it was written, and nothing but
/// the number of a port is read as one.
pub proof fn law_reserved_port_is_read(
    response: Seq<char>,
    number: nat,
    port: Result<NonZeroU16, Failure>,
)
    requires
        is_reserved_port(response, port),
    ensures
        xml::tag_value(response, "NewReservedPort"@) == Some(text::decimal(number)) ==> {
            &&& port is Ok <==> 0 < number <= 65535
            &&& port is Ok ==> port->Ok_0.spec_get() == number
        },
        xml::tag_value(response, "NewReservedPort"@) is None ==> port is Err,
        xml::tag_value(response, "NewReservedPort"@) matches Some(value) ==> port is Ok ==> value.len()
            > 0 && forall|i: int|
            0 <= i < value.len() ==> '0' <= #[trigger] value[i] <= '9' || (i == 0 && value[i] == '+'),
{
    if number <= 65535 {
        text::law_decimal_is_read(number, u16::MAX as nat);
    } else {
        text::law_decimal_is_read(number, number);
    }
    if let Some(value) = xml::tag_value(response, "NewReservedPort"@) {
        if text::parse_unsigned(value, 10, u16::MAX as nat) is Some {
            text::law_only_numbers_are_read(value, u16::MAX as nat);
        }
    }
}

/// The external address is what the text in the response parses to. An empty text stands for no
/// connectivity, which is the address of all zeros. Without a text, or with one that is no address,
/// there is none.
pub proof fn law_external_address_is_read(
    body: String,
    parsed: Option<IpAddr>,
    address: Result<IpAddr, Failure>,
)
    requires
        is_external_address(Ok(body), parsed, address),
    ensures
        match xml::tag_value(body@, "NewExternalIPAddress"@) {
            None => address is Err,
            Some(value) => if value.len() == 0 {
                address is Ok && (address->Ok_0 matches IpAddr::V4(v4) && v4.bits == 0)
            } else {
                (address is Ok <==> parsed is Some) && (parsed matches Some(ip) ==> address == Ok::<
                    _,
                    Failure,
                >(ip))
            },
        },
{
}

/// The envelope of an action holds its arguments in an element of the action, which names the
/// service, in the body of the envelope.
pub proof fn law_envelope_holds_the_action(
    service_type: Seq<char>,
    action: Seq<char>,
    arguments: Seq<char>,
)
    ensures
        exists|i: int|
            #[trigger] text::matches_at(
                envelope_text(service_type, action, arguments),
                i,
                "<s:Body><u:"@ + action + " xmlns:u=\""@ + service_type + "\">"@ + arguments + "</u:"@
                    + action + "></s:Body>"@,
            ),
{
    let envelope = envelope_text(service_type, action, arguments);
    let head = "<?xml version=\"1.0\"?><s:Envelope xmlns:s=\"http://schemas.xmlsoap.org/soap/envelope/\" s:encodingStyle=\"http://schemas.xmlsoap.org/soap/encoding/\"><s:Body><u:"@;
    let tail = "></s:Body></s:Envelope>"@;
    let middle = action + " xmlns:u=\""@ + service_type + "\">"@ + arguments + "</u:"@ + action;
    let part = "<s:Body><u:"@ + action + " xmlns:u=\""@ + service_type + "\">"@ + arguments + "</u:"@
        + action + "></s:Body>"@;
    assert(part =~= "<s:Body><u:"@ + middle + "></s:Body>"@);
    assert(envelope =~= head + middle + tail);
    reveal_strlit("<?xml version=\"1.0\"?><s:Envelope xmlns:s=\"http://schemas.xmlsoap.org/soap/envelope/\" s:encodingStyle=\"http://schemas.xmlsoap.org/soap/encoding/\"><s:Body><u:");
    reveal_strlit("<s:Body><u:");
    reveal_strlit("></s:Body></s:Envelope>");
    reveal_strlit("></s:Body>");
    let i = head.len() - 11;
    assert(head.skip(i) =~= "<s:Body><u:"@);
    assert(tail.take(10) =~= "></s:Body>"@);
    assert(envelope.subrange(i, i + part.len()) =~= part);
    assert(text::matches_at(envelope, i, part));
}

} // verus!
