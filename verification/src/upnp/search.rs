//! SSDP searches, which find the device descriptions of a gateway.

use vstd::prelude::*;
use vstd::string::*;
use vstd::utf8::*;

use crate::address;
use crate::address::{socket_address, GatewayAddress, IpAddr, Ipv4Addr, Ipv6Addr, SocketAddr};
use crate::bytes::decode_text;
use crate::scan;
use crate::scan::{
    append_decimal, chars_of, find_pattern, line_spans, span_is, span_starts_with, word_span,
};
use crate::text;
use crate::text::Span;
use crate::upnp::failure::InvalidResponseKind;
use crate::upnp::http;
use crate::upnp::http::header_value;
use crate::upnp::{DISCOVERY_PORT, SEARCH_WINDOW_SECONDS};

verus! {

/// The search targets identifying an internet gateway device, in the order they are sent.
/// Devices are required to respond to searches for lower versions of their supported device
/// and service types, so a single `InternetGatewayDevice:1` search should be sufficient.
/// However, some implementations only match specific device, service, or generic targets,
/// so a search is sent for each of these targets and all responses are considered.
pub const SEARCH_TARGETS: [&'static str; 3] = [
    "urn:schemas-upnp-org:device:InternetGatewayDevice:1",
    "urn:schemas-upnp-org:service:WANIPConnection:1",
    "upnp:rootdevice",
];

/// The IPv4 multicast group used by SSDP, `239.255.255.250`.
pub const SEARCH_GROUP_V4_BITS: u32 = 0xEFFF_FFFA;

/// The IPv6 multicast group used by SSDP, `ff02::c`.
pub const SEARCH_GROUP_V6_BITS: u128 = 0xFF02_0000_0000_0000_0000_0000_0000_000C;

/// The socket address of the SSDP multicast group matching the IP version of the gateway.
pub open spec fn multicast_socket(gateway: GatewayAddress) -> SocketAddr {
    match gateway {
        GatewayAddress::IpV4(_) => address::gateway_socket(
            GatewayAddress::IpV4(Ipv4Addr { bits: SEARCH_GROUP_V4_BITS }),
            DISCOVERY_PORT,
        ),
        GatewayAddress::IpV6(_, scope_id) => address::gateway_socket(
            GatewayAddress::IpV6(Ipv6Addr { bits: SEARCH_GROUP_V6_BITS }, scope_id),
            DISCOVERY_PORT,
        ),
    }
}

/// Where searches are sent: to the gateway itself and to the local multicast group.
/// Unicast search support was only added in version 1.1 of the UPnP Device Architecture, so some
/// older devices respond exclusively to multicast searches. The unicast request is sent first to
/// teach stateful host firewalls to expect a response from the gateway.
pub fn search_destinations(gateway: GatewayAddress) -> (destinations: (SocketAddr, SocketAddr))
    ensures
        destinations.0 == address::gateway_socket(gateway, DISCOVERY_PORT),
        destinations.1 == multicast_socket(gateway),
{
    let group = match gateway {
        GatewayAddress::IpV4(_) => GatewayAddress::IpV4(Ipv4Addr { bits: SEARCH_GROUP_V4_BITS }),
        GatewayAddress::IpV6(_, scope_id) => GatewayAddress::IpV6(
            Ipv6Addr { bits: SEARCH_GROUP_V6_BITS },
            scope_id,
        ),
    };
    (socket_address(gateway, DISCOVERY_PORT), socket_address(group, DISCOVERY_PORT))
}

/// The host named by searches, without its port.
pub open spec fn multicast_host(gateway: GatewayAddress) -> Seq<char> {
    match gateway {
        GatewayAddress::IpV4(_) => "239.255.255.250"@,
        GatewayAddress::IpV6(_, _) => "[ff02::c]"@,
    }
}

/// A search for a target.
pub open spec fn search_text(gateway: GatewayAddress, target: Seq<char>) -> Seq<char> {
    "M-SEARCH * HTTP/1.1\r\nHOST: "@ + multicast_host(gateway) + ":"@ + text::decimal(
        DISCOVERY_PORT as nat,
    ) + "\r\nMAN: \"ssdp:discover\"\r\nMX: "@ + text::decimal(SEARCH_WINDOW_SECONDS as nat)
        + "\r\nST: "@ + target + "\r\n\r\n"@
}

/// The search request for a target, see section 1.3.2 of the UPnP Device Architecture.
/// Reference implementations use the multicast group in the HOST header of every search request,
/// including unicast ones, so deployed devices are only known to accept this form.
/// Header names are conventionally sent in upper case for compatibility with strict devices.
pub fn search_request(gateway: GatewayAddress, target: &str) -> (request: String)
    ensures
        request@ == search_text(gateway, target@),
{
    let mut request = "M-SEARCH * HTTP/1.1\r\nHOST: ".to_owned();
    match gateway {
        GatewayAddress::IpV4(_) => {
            request.append("239.255.255.250");
        },
        GatewayAddress::IpV6(_, _) => {
            request.append("[ff02::c]");
        },
    }
    request.append(":");
    append_decimal(&mut request, DISCOVERY_PORT as u64);
    request.append("\r\nMAN: \"ssdp:discover\"\r\nMX: ");
    append_decimal(&mut request, SEARCH_WINDOW_SECONDS);
    request.append("\r\nST: ");
    request.append(target);
    request.append("\r\n\r\n");
    request
}

/// The search requests that are sent to find the device descriptions of a gateway, one for each
/// target.
pub fn search_requests(gateway: GatewayAddress) -> (requests: Vec<String>)
    ensures
        requests@.len() == SEARCH_TARGETS@.len(),
        forall|i: int|
            0 <= i < requests@.len() ==> (#[trigger] requests@[i])@ == search_text(
                gateway,
                SEARCH_TARGETS@[i]@,
            ),
{
    let targets = SEARCH_TARGETS;
    let mut requests: Vec<String> = Vec::new();
    let mut i: usize = 0;
    while i < 3
        invariant
            targets == SEARCH_TARGETS,
            i <= 3,
            requests@.len() == i,
            forall|j: int|
                0 <= j < i ==> (#[trigger] requests@[j])@ == search_text(
                    gateway,
                    SEARCH_TARGETS@[j]@,
                ),
        decreases 3 - i,
    {
        requests.push(search_request(gateway, targets[i]));
        i += 1;
    }
    requests
}

/// The value of the first header of the given name.
pub open spec fn first_header(lines: Seq<Seq<char>>, name: Seq<char>) -> Option<Seq<char>>
    decreases lines.len(),
{
    if lines.len() == 0 {
        None
    } else if http::is_header(lines[0], name) {
        Some(http::header(lines[0]).unwrap().1)
    } else {
        first_header(lines.skip(1), name)
    }
}

/// Whether a response begins with the HTTP success status line.
pub open spec fn is_success(lines: Seq<Seq<char>>) -> bool {
    &&& lines.len() > 0
    &&& text::matches_at(lines[0], 0, "HTTP/"@)
    &&& text::word(lines[0], 1) == Some("200"@)
}

/// The location that a search response names.
pub open spec fn search_location(response: Seq<char>) -> Result<Seq<char>, InvalidResponseKind> {
    let lines = text::lines(response);
    if !is_success(lines) {
        Err(InvalidResponseKind::SearchResponse)
    } else {
        match first_header(lines.skip(1), "location"@) {
            Some(location) => Ok(location),
            None => Err(InvalidResponseKind::MissingLocation),
        }
    }
}

/// Whether a response begins with the HTTP success status line.
fn reports_success(chars: &[char], lines: &Vec<Span>) -> (success: bool)
    requires
        forall|i: int| 0 <= i < lines@.len() ==> (#[trigger] lines@[i]).within(chars@.len()),
    ensures
        success == is_success(scan::covered(lines@, chars@)),
{
    if lines.len() == 0 {
        return false;
    }
    let status = lines[0];
    if !span_starts_with(chars, status, "HTTP/") {
        return false;
    }
    match word_span(chars, status, 1) {
        Some(code) => span_is(chars, code, "200"),
        None => false,
    }
}

/// Parse an SSDP search response and return the value of its location header.
/// See section 1.3.3 of the UPnP Device Architecture.
pub fn parse_search_response(response: &str) -> (location: Result<&str, InvalidResponseKind>)
    ensures
        match location {
            Ok(l) => search_location(response@) == Ok::<_, InvalidResponseKind>(l@),
            Err(e) => search_location(response@) == Err::<Seq<char>, _>(e),
        },
{
    let chars = chars_of(response);
    let lines = line_spans(chars.as_slice());

    // Search responses use the HTTP success status line.
    if !reports_success(chars.as_slice(), &lines) {
        return Err(InvalidResponseKind::SearchResponse);
    }

    // Find the location header naming the URL of the device description. Header names are case-insensitive.
    let ghost headers = scan::covered(lines@, chars@);
    let mut i: usize = 1;
    while i < lines.len()
        invariant
            1 <= i <= lines@.len(),
            chars@ == response@,
            headers == scan::covered(lines@, chars@),
            headers == text::lines(response@),
            is_success(headers),
            forall|j: int| 0 <= j < lines@.len() ==> (#[trigger] lines@[j]).within(chars@.len()),
            first_header(headers.skip(1), "location"@) == first_header(
                headers.skip(i as int),
                "location"@,
            ),
        decreases lines@.len() - i,
    {
        assert(headers.skip(i as int)[0] == lines@[i as int].of(chars@));
        assert(headers.skip(i as int).skip(1) =~= headers.skip(i + 1));
        match header_value(chars.as_slice(), lines[i], "location") {
            Some(value) => {
                return Ok(response.substring_char(value.start, value.end));
            },
            None => {},
        }
        i += 1;
    }
    Err(InvalidResponseKind::MissingLocation)
}

/// A candidate device description location parsed from a search response.
#[derive(Debug)]
pub struct SearchCandidate {
    /// Whether the response names a version 2 gateway device or service, which is preferred.
    pub version_2: bool,

    /// The location of the device description.
    pub location: String,
}

/// What a candidate says.
pub struct SearchCandidateView {
    pub version_2: bool,
    pub location: Seq<char>,
}

impl View for SearchCandidate {
    type V = SearchCandidateView;

    open spec fn view(&self) -> SearchCandidateView {
        SearchCandidateView { version_2: self.version_2, location: self.location@ }
    }
}

/// Whether a search response names a version 2 gateway device or service.
pub open spec fn names_version_2(response: Seq<char>) -> bool {
    text::find(response, "InternetGatewayDevice:2"@) is Some || text::find(
        response,
        "WANIPConnection:2"@,
    ) is Some
}

/// The candidate that a datagram names, if it is a search response with a location.
pub open spec fn candidate_in(datagram: Seq<u8>) -> Option<SearchCandidateView> {
    if valid_utf8(datagram) {
        let response = decode_utf8(datagram);
        match search_location(response) {
            Ok(location) => Some(
                SearchCandidateView { version_2: names_version_2(response), location },
            ),
            Err(_) => None,
        }
    } else {
        None
    }
}

/// Reads the candidate that a datagram names. Unparsable responses name none; multiple devices
/// may answer the multicast searches.
pub fn read_candidate(datagram: &[u8]) -> (candidate: Option<SearchCandidate>)
    ensures
        match candidate {
            Some(c) => candidate_in(datagram@) == Some(c@),
            None => candidate_in(datagram@) is None,
        },
{
    let response = match decode_text(datagram) {
        Some(response) => response,
        None => {
            return None;
        },
    };
    match parse_search_response(response) {
        Ok(location) => {
            let chars = chars_of(response);
            let device = chars_of("InternetGatewayDevice:2");
            let service = chars_of("WANIPConnection:2");
            let version_2 = find_pattern(chars.as_slice(), device.as_slice(), 0).is_some()
                || find_pattern(chars.as_slice(), service.as_slice(), 0).is_some();
            Some(SearchCandidate { version_2, location: location.to_owned() })
        },
        Err(_) => None,
    }
}

/// Searches go to the group 239.255.255.250, or to the group ff02::c through the interface toward
/// the gateway, at port 1900.
pub proof fn law_searches_go_to_the_group(gateway: GatewayAddress)
    ensures
        multicast_socket(gateway).spec_port() == 1900,
        gateway is IpV4 ==> multicast_socket(gateway).spec_ip() == IpAddr::V4(
            Ipv4Addr { bits: (239 * 0x100_0000 + 255 * 0x1_0000 + 255 * 0x100 + 250) as u32 },
        ),
        gateway matches GatewayAddress::IpV6(_, scope_id) ==> multicast_socket(gateway)
            == address::gateway_socket(
            GatewayAddress::IpV6(
                Ipv6Addr {
                    bits: (0xFF02 * 0x1_0000_0000_0000_0000_0000_0000_0000 + 0xC) as u128,
                },
                scope_id,
            ),
            1900,
        ),
{
}

/// A candidate is taken from a response of success that names a location. It is one of version 2
/// exactly when the response names a gateway device or a connection service of that version
/// anywhere.
pub proof fn law_candidates_are_read(datagram: Seq<u8>, at: int)
    requires
        valid_utf8(datagram),
    ensures
        ({
            let response = decode_utf8(datagram);
            &&& candidate_in(datagram) matches Some(candidate) ==> {
                &&& search_location(response) == Ok::<_, InvalidResponseKind>(candidate.location)
                &&& text::matches_at(response, at, "InternetGatewayDevice:2"@)
                    ==> candidate.version_2
                &&& text::matches_at(response, at, "WANIPConnection:2"@) ==> candidate.version_2
                &&& candidate.version_2 ==> (exists|j: int|
                    #[trigger] text::matches_at(response, j, "InternetGatewayDevice:2"@)) || (exists|
                    j: int,
                | #[trigger] text::matches_at(response, j, "WANIPConnection:2"@))
            }
            &&& candidate_in(datagram) is Some <==> search_location(response) is Ok
        }),
{
    let response = decode_utf8(datagram);
    let device = "InternetGatewayDevice:2"@;
    let service = "WANIPConnection:2"@;
    text::lemma_find_from(response, device, 0);
    text::lemma_find_from(response, service, 0);
    if names_version_2(response) {
        if let Some(j) = text::find(response, device) {
            assert(text::matches_at(response, j, device));
        } else if let Some(j) = text::find(response, service) {
            assert(text::matches_at(response, j, service));
        }
    }
}

/// A datagram that is no text names no candidate.
pub proof fn law_candidates_are_text(datagram: Seq<u8>)
    requires
        !valid_utf8(datagram),
    ensures
        candidate_in(datagram) is None,
{
}

/// The targets that are searched for: the gateway device, its connection service, and any device.
pub proof fn law_search_targets()
    ensures
        SEARCH_TARGETS@.len() == 3,
        SEARCH_TARGETS@[0]@ == "urn:schemas-upnp-org:device:InternetGatewayDevice:1"@,
        SEARCH_TARGETS@[1]@ == "urn:schemas-upnp-org:service:WANIPConnection:1"@,
        SEARCH_TARGETS@[2]@ == "upnp:rootdevice"@,
{
}

/// Of several headers with a name, the first one counts. Other lines do not matter.
pub proof fn law_first_header_counts(line: Seq<char>, rest: Seq<Seq<char>>, name: Seq<char>)
    ensures
        first_header(Seq::<Seq<char>>::empty(), name) is None,
        http::is_header(line, name) ==> first_header(seq![line] + rest, name) == Some(
            http::header(line).unwrap().1,
        ),
        !http::is_header(line, name) ==> first_header(seq![line] + rest, name) == first_header(
            rest,
            name,
        ),
{
    assert((seq![line] + rest).skip(1) =~= rest);
}

/// A search response is one of success exactly when its first line begins with the name of the
/// protocol and has the status 200. Its location is the value of its first location header.
pub proof fn law_search_responses_are_read(response: Seq<char>)
    ensures
        ({
            let lines = text::lines(response);
            let success = lines.len() > 0 && lines[0].len() >= 5 && lines[0].take(5) == "HTTP/"@
                && text::word(lines[0], 1) == Some(seq!['2', '0', '0']);
            &&& !success ==> search_location(response) == Err::<Seq<char>, _>(
                InvalidResponseKind::SearchResponse,
            )
            &&& success ==> match first_header(lines.skip(1), "LOCATION"@) {
                Some(location) => search_location(response) == Ok::<_, InvalidResponseKind>(
                    location,
                ),
                None => search_location(response) == Err::<Seq<char>, _>(
                    InvalidResponseKind::MissingLocation,
                ),
            }
        }),
{
    reveal_strlit("HTTP/");
    reveal_strlit("200");
    assert("200"@ =~= seq!['2', '0', '0']);
    let lines = text::lines(response);
    if lines.len() > 0 && lines[0].len() >= 5 {
        assert(lines[0].subrange(0, 5) =~= lines[0].take(5));
    }
    lemma_location_name(lines.skip(1));
}

/// The name of the location header can be written in capital letters.
proof fn lemma_location_name(lines: Seq<Seq<char>>)
    ensures
        first_header(lines, "LOCATION"@) == first_header(lines, "location"@),
    decreases lines.len(),
{
    if lines.len() > 0 {
        lemma_location_name(lines.skip(1));
        reveal_strlit("LOCATION");
        reveal_strlit("location");
        text::lemma_letter('l', 'L', 'l');
        text::lemma_letter('o', 'O', 'o');
        text::lemma_letter('c', 'C', 'c');
        text::lemma_letter('a', 'A', 'a');
        text::lemma_letter('t', 'T', 't');
        text::lemma_letter('i', 'I', 'i');
        text::lemma_letter('n', 'N', 'n');
        assert forall|i: int| 0 <= i < 8 implies text::ascii_lower(#[trigger] "LOCATION"@[i])
            == text::ascii_lower("location"@[i]) by {}
        if let Some((n, _)) = http::header(lines[0]) {
            assert(text::eq_ignore_case(n, "LOCATION"@) == text::eq_ignore_case(n, "location"@));
        }
    }
}

} // verus!
