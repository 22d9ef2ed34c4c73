use crab_nat::address::{GatewayAddress, IpAddr, Ipv4Addr, Ipv6Addr, SocketAddr};
use crab_nat::bytes::decode_text;
use crab_nat::protocol::{InternetProtocol, VersionCode};
use crab_nat::upnp::description::find_services;
use crab_nat::upnp::events::parse_notify_request;
use crab_nat::upnp::exchange::ResponseReader;
use crab_nat::upnp::http::decode_chunked;
use crab_nat::upnp::search::{
    read_candidate, search_destinations, search_request, search_requests,
};
use crab_nat::upnp::service::parse_service_version;
use crab_nat::upnp::url::{host_header, repoint_at_gateway, strip_http_scheme};
use crab_nat::upnp::{
    authority_port, code_to_failure, decode_xml_entities, find_tag_value, parse_http_response,
    parse_search_response, resolve_control_url, split_http_url, ErrorCode, Failure,
    InvalidResponseKind, WanService, MAX_HTTP_RESPONSE_SIZE, SEARCH_TARGETS,
};

fn v4(a: u8, b: u8, c: u8, d: u8) -> Ipv4Addr {
    Ipv4Addr {
        bits: u32::from_be_bytes([a, b, c, d]),
    }
}

#[test]
fn scheme_is_not_case_sensitive() {
    assert_eq!(strip_http_scheme("HtTp://host/x"), Some("host/x"));
    assert_eq!(strip_http_scheme("http:/host"), None);
    assert_eq!(strip_http_scheme("h\u{e9}tp://x"), None);
    assert_eq!(strip_http_scheme(""), None);
}

#[test]
fn split_url_parts_recompose() {
    for rest in ["a/b/c", "host:1/", "[::1]:80/x?y=/z"] {
        let url = format!("http://{rest}");
        let (authority, path) = split_http_url(&url).unwrap();
        assert!(!authority.contains('/'));
        assert!(path.starts_with('/'));
        assert_eq!(format!("{authority}{path}"), rest);
    }
    assert!(matches!(
        split_http_url("http:///path"),
        Err(InvalidResponseKind::InvalidUrl(u)) if u == "http:///path"
    ));
}

#[test]
fn ports_out_of_range_are_invalid() {
    assert_eq!(authority_port("h:65535").unwrap(), 65535);
    assert_eq!(authority_port("h:+8080").unwrap(), 8080);
    assert!(authority_port("h:65536").is_err());
    assert!(authority_port("h:").is_err());
    assert!(authority_port("[::1]:x").is_err());
    assert_eq!(authority_port("[::1]x:99").unwrap(), 80);
    assert_eq!(authority_port("").unwrap(), 80);
}

#[test]
fn urls_are_repointed_at_the_gateway() {
    let gateway = GatewayAddress::IpV4(v4(192, 168, 1, 1));
    assert_eq!(
        repoint_at_gateway(gateway, "10.0.0.1:5000").unwrap(),
        SocketAddr::V4 {
            ip: v4(192, 168, 1, 1),
            port: 5000
        }
    );
    let gateway = GatewayAddress::IpV6(Ipv6Addr { bits: 1 }, Some(7));
    assert_eq!(
        repoint_at_gateway(gateway, "host").unwrap(),
        SocketAddr::V6 {
            ip: Ipv6Addr { bits: 1 },
            port: 80,
            scope_id: 7
        }
    );
    assert!(repoint_at_gateway(gateway, "host:port").is_err());
}

#[test]
fn host_headers_carry_the_port_back() {
    let four = SocketAddr::V4 {
        ip: v4(192, 168, 1, 1),
        port: 1900,
    };
    let host = host_header(&four, "192.168.1.1");
    assert_eq!(host, "192.168.1.1:1900");
    assert_eq!(authority_port(&host).unwrap(), 1900);

    let six = SocketAddr::V6 {
        ip: Ipv6Addr { bits: 1 },
        port: 5351,
        scope_id: 0,
    };
    let host = host_header(&six, "::1");
    assert_eq!(host, "[::1]:5351");
    assert_eq!(authority_port(&host).unwrap(), 5351);
}

#[test]
fn relative_urls_resolve_to_absolute_paths() {
    let resolve = |url: &str, base: Option<&str>, path: &str| resolve_control_url(url, base, "h", path).unwrap();
    assert_eq!(resolve("x", None, "/").1, "/x");
    assert_eq!(resolve("", None, "/a/b").1, "/a/");
    assert_eq!(resolve("x", Some("http://b"), "/a/b"), ("b".to_string(), "/x".to_string()));
    assert!(matches!(
        resolve_control_url("x", Some("ftp://b"), "h", "/"),
        Err(InvalidResponseKind::InvalidUrl(u)) if u == "ftp://b"
    ));
    assert!(matches!(
        resolve_control_url("http://", None, "h", "/"),
        Err(InvalidResponseKind::InvalidUrl(u)) if u == "http://"
    ));
}

#[test]
fn first_tag_wins_and_is_trimmed() {
    assert_eq!(find_tag_value("<a>\u{a0}x\n</a><a>y</a>", "a"), Some("x"));
    assert_eq!(find_tag_value("</a><a></a>", "a"), Some(""));
    assert_eq!(find_tag_value("<a>x</b></a>", "a"), Some("x</b>"));
    assert_eq!(find_tag_value("<ab>x</ab>", "a"), None);
}

#[test]
fn decoding_undoes_one_level_of_escaping() {
    for value in ["a&b", "<\"'>", "&amp;&lt;", "&&lt;;", "plain"] {
        let mut escaped = String::new();
        for c in value.chars() {
            match c {
                '&' => escaped.push_str("&amp;"),
                '<' => escaped.push_str("&lt;"),
                '>' => escaped.push_str("&gt;"),
                '"' => escaped.push_str("&quot;"),
                '\'' => escaped.push_str("&apos;"),
                other => escaped.push(other),
            }
        }
        assert_eq!(decode_xml_entities(&escaped), value);
    }
    assert_eq!(decode_xml_entities("&amp;amp;"), "&amp;");
    assert_eq!(decode_xml_entities("&bogus;"), "&bogus;");
}

#[test]
fn service_versions() {
    assert_eq!(parse_service_version(""), Some(1));
    assert_eq!(parse_service_version(":4294967295"), Some(u32::MAX));
    assert_eq!(parse_service_version(":4294967296"), None);
    assert_eq!(parse_service_version(":"), None);
    assert_eq!(parse_service_version("2"), None);
    for service in [
        WanService::WanPppConnection1,
        WanService::WanIpConnection1,
        WanService::WanIpConnection2,
    ] {
        assert_eq!(WanService::from_service_type(service.service_type()), Some(service));
    }
    assert_eq!(WanService::WanPppConnection1.preference(), 0);
    assert_eq!(WanService::WanIpConnection1.preference(), 1);
    assert_eq!(WanService::WanIpConnection2.preference(), 2);
}

#[test]
fn services_keep_their_order_among_equals() {
    let entry = |name: &str, url: &str, event: &str| {
        format!(
            "<service><serviceType>urn:schemas-upnp-org:service:{name}</serviceType>\
             <controlURL>{url}</controlURL><eventSubURL>{event}</eventSubURL></service>"
        )
    };
    let description = [
        entry("WANPPPConnection:1", "/p1", ""),
        entry("WANIPConnection:1", "/i1", "/e?a=1&amp;b"),
        entry("WANPPPConnection", "/p2", "/e"),
        entry("WANIPConnection:2", "/j1", ""),
        entry("WANIPConnection:7", "/j2", ""),
    ]
    .concat();
    let (services, base) = find_services(&description).unwrap();
    let urls: Vec<&str> = services.iter().map(|s| s.control_url.as_str()).collect();
    assert_eq!(urls, ["/j1", "/j2", "/i1", "/p1", "/p2"]);
    assert_eq!(base, None);
    assert_eq!(services[2].event_url.as_deref(), Some("/e?a=1&b"));
    assert_eq!(services[3].event_url, None);

    // An entry which is cut short ends the search.
    assert!(matches!(
        find_services("<service><serviceType>x"),
        Err(InvalidResponseKind::NoWanConnectionService)
    ));
}

#[test]
fn searches() {
    let gateway = GatewayAddress::IpV4(v4(192, 168, 1, 1));
    assert_eq!(
        search_request(gateway, "upnp:rootdevice"),
        "M-SEARCH * HTTP/1.1\r\nHOST: 239.255.255.250:1900\r\nMAN: \"ssdp:discover\"\r\nMX: 2\r\nST: upnp:rootdevice\r\n\r\n"
    );
    let requests = search_requests(GatewayAddress::IpV6(Ipv6Addr { bits: 5 }, Some(3)));
    assert_eq!(requests.len(), 3);
    for (request, target) in requests.iter().zip(SEARCH_TARGETS) {
        assert!(request.contains("HOST: [ff02::c]:1900\r\n"));
        assert!(request.ends_with(&format!("ST: {target}\r\n\r\n")));
    }
    let (unicast, multicast) = search_destinations(GatewayAddress::IpV6(Ipv6Addr { bits: 5 }, Some(3)));
    assert_eq!(
        unicast,
        SocketAddr::V6 {
            ip: Ipv6Addr { bits: 5 },
            port: 1900,
            scope_id: 3
        }
    );
    assert_eq!(
        multicast,
        SocketAddr::V6 {
            ip: Ipv6Addr {
                bits: 0xFF02_0000_0000_0000_0000_0000_0000_000C
            },
            port: 1900,
            scope_id: 3
        }
    );
    let (_, multicast) = search_destinations(gateway);
    assert_eq!(
        multicast,
        SocketAddr::V4 {
            ip: v4(239, 255, 255, 250),
            port: 1900
        }
    );
}

#[test]
fn search_responses() {
    // The status is compared as text.
    assert!(matches!(
        parse_search_response("HTTP/1.1 0200 OK\r\nLOCATION: x"),
        Err(InvalidResponseKind::SearchResponse)
    ));
    assert!(matches!(parse_search_response(""), Err(InvalidResponseKind::SearchResponse)));
    // The first location wins.
    assert_eq!(
        parse_search_response("HTTP/1.1 200\nlocation:  a:b \nLOCATION: c").unwrap(),
        "a:b"
    );

    let candidate = read_candidate(b"HTTP/1.1 200 OK\r\nST: urn:x:WANIPConnection:2\r\nLOCATION: u\r\n\r\n").unwrap();
    assert!(candidate.version_2);
    assert_eq!(candidate.location, "u");
    let candidate = read_candidate(b"HTTP/1.1 200 OK\r\nLOCATION: u\r\n\r\n").unwrap();
    assert!(!candidate.version_2);
    assert!(read_candidate(b"HTTP/1.1 200 OK\r\nLOCATION: \xff\r\n\r\n").is_none());
    assert!(read_candidate(b"NOTIFY * HTTP/1.1\r\n\r\n").is_none());
}

#[test]
fn text_is_decoded_only_when_valid() {
    assert_eq!(decode_text("h\u{e9}".as_bytes()), Some("h\u{e9}"));
    assert_eq!(decode_text(b"\xc3"), None);
    // A head which is not text is invalid.
    assert!(matches!(
        parse_http_response(b"HTTP/1.1 200 OK\r\nServer: \xff\r\n\r\n", false),
        Err(InvalidResponseKind::HttpResponse)
    ));
    // A body which is not text is marked where it is not.
    let response = parse_http_response(b"HTTP/1.1 200 OK\r\nContent-Length: 3\r\n\r\na\xffb", false)
        .unwrap()
        .unwrap();
    assert_eq!(response.body, "a\u{fffd}b");
}

#[test]
fn later_headers_win() {
    let response = parse_http_response(
        b"HTTP/1.1 200 OK\r\nSID: a\r\nsid : b \r\nTimeout: Second-5\r\nContent-Length: 9\r\ncontent-length: 1\r\n\r\nxy",
        false,
    )
    .unwrap()
    .unwrap();
    assert_eq!(response.sid.as_deref(), Some("b"));
    assert_eq!(response.timeout.as_deref(), Some("Second-5"));
    assert_eq!(response.body, "x");

    // Any invalid length is an error, even when a later one is valid.
    assert!(parse_http_response(
        b"HTTP/1.1 200 OK\r\nContent-Length: x\r\nContent-Length: 0\r\n\r\n",
        false
    )
    .is_err());
}

#[test]
fn chunks() {
    let none: Option<Vec<u8>> = None;
    assert_eq!(decode_chunked(b"3\r\nabc\r\n0\r\n\r\n").unwrap(), Some(b"abc".to_vec()));
    assert_eq!(decode_chunked(b" A ; x=y \r\n0123456789\r\n0\r\n").unwrap(), Some(b"0123456789".to_vec()));
    assert_eq!(decode_chunked(b"3\r\nabc\r\n0\r").unwrap(), none);
    assert_eq!(decode_chunked(b"3\r\nabc").unwrap(), none);
    assert_eq!(decode_chunked(b"3\r\nabc\r").unwrap(), none);
    assert_eq!(decode_chunked(b"").unwrap(), none);
    assert!(decode_chunked(b"3\r\nabcd\r\n").is_err());
    assert!(decode_chunked(b"xyz\r\n").is_err());
    assert!(decode_chunked(b"\r\n").is_err());
    // What follows the end does not matter.
    assert_eq!(decode_chunked(b"0\r\ntrailer").unwrap(), Some(Vec::new()));
    // A size that no message reaches stays incomplete.
    assert_eq!(decode_chunked(b"ffffffffffffffff\r\nabc").unwrap(), none);
}

#[test]
fn responses_can_be_read_in_any_pieces() {
    let message = b"HTTP/1.1 100 Continue\r\n\r\nHTTP/1.1 200 OK\r\nTransfer-Encoding: Chunked\r\n\r\n4\r\nwiki\r\n0\r\n\r\n";
    for size in [1, 2, 3, 7, 1000] {
        let mut reader = ResponseReader::new();
        let mut found = None;
        for chunk in message.chunks(size) {
            if let Some(response) = reader.receive(chunk).unwrap() {
                found = Some(response);
                break;
            }
        }
        let response = found.unwrap();
        assert_eq!(response.status, 200);
        assert_eq!(response.body, "wiki");
    }

    // An empty read ends the message.
    let mut reader = ResponseReader::new();
    assert!(reader.receive(b"HTTP/1.1 200 OK\r\n\r\nbody").unwrap().is_none());
    assert_eq!(reader.receive(b"").unwrap().unwrap().body, "body");

    let mut reader = ResponseReader::new();
    let large = vec![b'x'; MAX_HTTP_RESPONSE_SIZE];
    assert!(reader.receive(&large).unwrap().is_none());
    assert!(matches!(
        reader.receive(b"y"),
        Err(Failure::InvalidResponse(InvalidResponseKind::ResponseTooLarge))
    ));
}

#[test]
fn notifications() {
    let raw = b"NOTIFY / HTTP/1.1\r\nSID: uuid:1\r\nSEQ: 7\r\nContent-Length: 4\r\n\r\nbody";
    let notification = parse_notify_request(raw, false).unwrap().unwrap();
    assert_eq!(notification.method, "NOTIFY");
    assert_eq!(notification.sid.as_deref(), Some("uuid:1"));
    assert_eq!(notification.seq, Some(7));
    assert_eq!(notification.body, "body");

    // Without explicit framing the body is empty.
    let notification = parse_notify_request(b"GET /\n\nrest", false).unwrap().unwrap();
    assert_eq!(notification.body, "");
    assert_eq!(notification.seq, None);

    // A sequence number which is none is left out, even when an earlier one is valid.
    let notification = parse_notify_request(b"NOTIFY\nSEQ: 1\nSEQ: x\n\n", false).unwrap().unwrap();
    assert_eq!(notification.seq, None);

    assert!(parse_notify_request(b"NOTIFY /", false).unwrap().is_none());
    assert!(parse_notify_request(b"NOTIFY /", true).is_err());
    assert!(parse_notify_request(b"\r\n\r\n", false).is_err());
    assert!(parse_notify_request(b"N\xff\r\n\r\n", false).is_err());
    assert!(parse_notify_request(b"N\nContent-Length: -1\n\n", false).is_err());

    // A shorter body is accepted once the connection has closed, but not a chunked one.
    let short = b"NOTIFY\nContent-Length: 9\n\nabc";
    assert!(parse_notify_request(short, false).unwrap().is_none());
    assert_eq!(parse_notify_request(short, true).unwrap().unwrap().body, "abc");
    let chunked = b"NOTIFY\nTransfer-Encoding: chunked\n\n3\r\nab";
    assert!(parse_notify_request(chunked, false).unwrap().is_none());
    assert!(parse_notify_request(chunked, true).is_err());
}

#[test]
fn error_codes() {
    let numbers = [
        401, 402, 501, 602, 606, 713, 714, 715, 716, 718, 724, 725, 726, 727, 728, 729, 732,
    ];
    for number in numbers {
        let code = ErrorCode::from_number(number).unwrap();
        assert_eq!(code.number(), number);
        let message = code_to_failure(number).message();
        assert!(message.starts_with("Server responded with code: "), "{message}");
        assert!(code.message().ends_with('.'));
    }
    assert_eq!(ErrorCode::from_number(717), None);
    assert_eq!(
        code_to_failure(801).message(),
        "Server responded with unknown error code: 801"
    );
    assert_eq!(
        ErrorCode::NoPortMapsAvailable.message(),
        "The gateway does not have any free external ports available."
    );
    assert_eq!(
        Failure::InvalidResponse(InvalidResponseKind::ResponseTooLarge).message(),
        "Invalid response: HTTP response is larger than the maximum of 262144 bytes"
    );
    assert_eq!(
        InvalidResponseKind::InvalidValue {
            tag: "t",
            value: "v".to_string()
        }
        .message(),
        "Invalid value for t: v"
    );
    assert_eq!(InvalidResponseKind::MissingTag("t").message(), "Missing XML tag: t");
    assert_eq!(
        InvalidResponseKind::InvalidUrl("u".to_string()).message(),
        "Invalid HTTP URL: u"
    );
    assert_eq!(Failure::HttpStatus(404).message(), "Unexpected HTTP status code: 404");
}

#[test]
fn protocol_numbers() {
    assert_eq!(VersionCode::from_number(0), Some(VersionCode::NatPmp));
    assert_eq!(VersionCode::from_number(1), None);
    assert_eq!(VersionCode::from_number(2), Some(VersionCode::Pcp));
    assert_eq!(VersionCode::NatPmp.number(), 0);
    assert_eq!(VersionCode::Pcp.number(), 2);
    assert_eq!(VersionCode::NatPmp.text(), "NAT-PMP");
    assert_eq!(VersionCode::Pcp.text(), "PCP");
    assert_eq!(InternetProtocol::Udp.number(), 1);
    assert_eq!(InternetProtocol::Tcp.number(), 2);
    assert_eq!(InternetProtocol::Udp.text(), "UDP");
    assert_eq!(InternetProtocol::Tcp.text(), "TCP");
}

#[test]
fn gateway_addresses() {
    let ip = IpAddr::V4(v4(10, 0, 0, 1));
    assert_eq!(IpAddr::from(GatewayAddress::from(ip)), ip);
    let scoped = GatewayAddress::IpV6(Ipv6Addr { bits: 9 }, Some(4));
    assert_eq!(scoped.interface_index(), Some(4));
    assert_eq!(
        GatewayAddress::from(IpAddr::from(scoped)),
        GatewayAddress::IpV6(Ipv6Addr { bits: 9 }, None)
    );
    assert_eq!(
        GatewayAddress::from(v4(10, 0, 0, 1)),
        GatewayAddress::IpV4(v4(10, 0, 0, 1))
    );
    assert_eq!(
        GatewayAddress::from(Ipv6Addr { bits: 3 }),
        GatewayAddress::IpV6(Ipv6Addr { bits: 3 }, None)
    );
}

#[test]
fn chunk_lists_are_decoded_once_complete() {
    let pieces: [&[u8]; 3] = [b"ab", &[b'x'; 300], b"\r\n0\r\n"];
    let mut sent: Vec<u8> = Vec::new();
    for piece in pieces {
        sent.extend_from_slice(format!("{:x}\r\n", piece.len()).as_bytes());
        sent.extend_from_slice(piece);
        sent.extend_from_slice(b"\r\n");
    }
    sent.extend_from_slice(b"0\r\n");
    for received in 0..sent.len() {
        assert_eq!(decode_chunked(&sent[..received]).unwrap(), None);
    }
    assert_eq!(decode_chunked(&sent).unwrap(), Some(pieces.concat()));
    sent.extend_from_slice(b"a: b\r\n\r\n");
    assert_eq!(decode_chunked(&sent).unwrap(), Some(pieces.concat()));
}
