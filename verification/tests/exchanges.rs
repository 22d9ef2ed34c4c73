use crab_nat::address::{GatewayAddress, IpAddr, Ipv4Addr, NonZeroU16, SocketAddr};
use crab_nat::failures::{SocketError, SocketErrorKind};
use crab_nat::mapping::{Grant, PortMappingType};
use crab_nat::options::{PortMappingOptions, TimeoutConfig};
use crab_nat::protocol::InternetProtocol;
use crab_nat::time::{Duration, Instant};
use crab_nat::upnp::control::{drop_action, port_mapping_with_endpoint, MapRequest, MapStep};
use crab_nat::upnp::discovery::{Discovery, DiscoveryAction, DiscoveryEvent};
use crab_nat::upnp::http::HttpResponse;
use crab_nat::upnp::location::{EndpointChoice, LocationFetch, LocationStep};
use crab_nat::upnp::soap::{connection_status, external_address, soap_request, soap_response};
use crab_nat::upnp::subscription::{
    parse_subscription_timeout, renew_request, renew_subscription, subscribe, subscribe_request,
    unsubscribe, unsubscribe_request, Notification, NotificationReader,
};
use crab_nat::upnp::{
    try_drop_mapping, ControlEndpoint, EventUrl, Failure, InvalidResponseKind, WanService,
};

fn v4(a: u8, b: u8, c: u8, d: u8) -> Ipv4Addr {
    Ipv4Addr {
        bits: u32::from_be_bytes([a, b, c, d]),
    }
}

fn gateway() -> GatewayAddress {
    GatewayAddress::IpV4(v4(192, 168, 1, 1))
}

fn port(n: u16) -> NonZeroU16 {
    NonZeroU16::new(n).unwrap()
}

fn endpoint(service: WanService) -> ControlEndpoint {
    ControlEndpoint {
        address: SocketAddr::V4 {
            ip: v4(192, 168, 1, 1),
            port: 5000,
        },
        control_path: "/ctl".to_string(),
        service,
        event_url: None,
        interface: None,
    }
}

fn event_url() -> EventUrl {
    EventUrl {
        address: SocketAddr::V4 {
            ip: v4(192, 168, 1, 1),
            port: 5000,
        },
        path: "/evt".to_string(),
        interface: None,
    }
}

fn response(status: u16, body: &str) -> HttpResponse {
    HttpResponse {
        status,
        location: None,
        sid: None,
        timeout: None,
        body: body.to_string(),
    }
}

fn fault(code: &str) -> String {
    format!("<errorCode>{code}</errorCode>")
}

fn socket_error() -> SocketError {
    SocketError {
        kind: SocketErrorKind::Other,
        message: "broken".to_string(),
    }
}

#[test]
fn soap_requests_give_the_encoded_length() {
    let request = soap_request(
        &endpoint(WanService::WanIpConnection1),
        "192.168.1.1",
        "Act",
        "<a>\u{e9}</a>",
    );
    let body = "<?xml version=\"1.0\"?>\
                <s:Envelope xmlns:s=\"http://schemas.xmlsoap.org/soap/envelope/\" \
                s:encodingStyle=\"http://schemas.xmlsoap.org/soap/encoding/\">\
                <s:Body><u:Act xmlns:u=\"urn:schemas-upnp-org:service:WANIPConnection:1\"><a>\u{e9}</a></u:Act></s:Body>\
                </s:Envelope>";
    let length = body.len();
    assert_eq!(
        request,
        format!(
            "POST /ctl HTTP/1.1\r\n\
             Host: 192.168.1.1:5000\r\n\
             Content-Type: text/xml; charset=\"utf-8\"\r\n\
             Content-Length: {length}\r\n\
             SOAPAction: \"urn:schemas-upnp-org:service:WANIPConnection:1#Act\"\r\n\
             Connection: close\r\n\r\n\
             {body}"
        )
    );
}

#[test]
fn soap_errors_take_precedence_over_the_status() {
    assert_eq!(soap_response(Ok(response(200, "ok"))).unwrap(), "ok");
    assert!(matches!(
        soap_response(Ok(response(200, &fault("718")))),
        Err(Failure::ConflictInMappingEntry)
    ));
    assert!(matches!(
        soap_response(Ok(response(404, &fault("501")))),
        Err(Failure::ActionFailed)
    ));
    assert!(matches!(
        soap_response(Ok(response(500, "nothing"))),
        Err(Failure::InvalidResponse(InvalidResponseKind::ErrorResponse))
    ));
    assert!(matches!(
        soap_response(Ok(response(403, ""))),
        Err(Failure::HttpStatus(403))
    ));
    assert!(matches!(
        soap_response(Err(Failure::Timeout)),
        Err(Failure::Timeout)
    ));
}

#[test]
fn connection_statuses() {
    let status = |text: &str| {
        connection_status(&Ok(format!("<NewConnectionStatus>{text}</NewConnectionStatus>")))
    };
    assert_eq!(status("connected"), Some(true));
    assert_eq!(status(" UP "), Some(true));
    assert_eq!(status("Disconnected"), Some(false));
    assert_eq!(connection_status(&Ok(String::new())), None);
    assert_eq!(connection_status(&Err(Failure::Timeout)), None);
}

#[test]
fn external_addresses() {
    let ip = IpAddr::V4(v4(1, 2, 3, 4));
    let body = |text: &str| Ok(format!("<NewExternalIPAddress>{text}</NewExternalIPAddress>"));
    assert_eq!(external_address(body("1.2.3.4"), Some(ip)).unwrap(), ip);
    assert_eq!(
        external_address(body(" "), Some(ip)).unwrap(),
        IpAddr::V4(v4(0, 0, 0, 0))
    );
    assert!(matches!(
        external_address(body("x"), None),
        Err(Failure::InvalidResponse(InvalidResponseKind::InvalidValue { tag: "NewExternalIPAddress", value })) if value == "x"
    ));
    assert!(matches!(
        external_address(Ok(String::new()), None),
        Err(Failure::InvalidResponse(InvalidResponseKind::MissingTag("NewExternalIPAddress")))
    ));
    assert!(matches!(
        external_address(Err(Failure::InvalidAction), None),
        Err(Failure::InvalidAction)
    ));
}

fn ip_body() -> Result<String, Failure> {
    Ok("<NewExternalIPAddress>1.2.3.4</NewExternalIPAddress>".to_string())
}

fn external() -> IpAddr {
    IpAddr::V4(v4(1, 2, 3, 4))
}

/// Runs a mapping request, handing out outcomes in turn, and returns the names and the requested
/// lifetimes of its actions with its result.
fn run(
    service: WanService,
    external_port: Option<NonZeroU16>,
    lifetime_seconds: Option<u32>,
    outcomes: Vec<Result<String, Failure>>,
) -> (Vec<String>, Result<Grant, Failure>) {
    let options = PortMappingOptions {
        external_port,
        lifetime_seconds,
        timeout_config: None,
    };
    let mut request = MapRequest::new(
        &endpoint(service),
        "192.168.1.2",
        InternetProtocol::Tcp,
        port(8080),
        options,
    );
    let mut log = Vec::new();
    for outcome in outcomes {
        let action = request.action();
        let lifetime = crab_nat::upnp::find_tag_value(&action.arguments, "NewLeaseDuration").unwrap_or("-");
        let external = crab_nat::upnp::find_tag_value(&action.arguments, "NewExternalPort").unwrap_or("-");
        log.push(format!("{} {external} {lifetime}", action.name));
        match request.step(outcome, Some(self::external())) {
            MapStep::Continue => {}
            MapStep::Granted(grant) => return (log, Ok(grant)),
            MapStep::Failed(e) => return (log, Err(e)),
        }
    }
    panic!("the request did not end: {log:?}");
}

#[test]
fn version_1_requests_the_internal_port() {
    let (log, result) = run(
        WanService::WanIpConnection1,
        None,
        None,
        vec![ip_body(), Ok(String::new())],
    );
    assert_eq!(log, ["GetExternalIPAddress - -", "AddPortMapping 8080 7200"]);
    let grant = result.unwrap();
    assert_eq!(grant.external_port, port(8080));
    assert_eq!(grant.lifetime_seconds, 7200);
    assert_eq!(grant.external_ip, external());
    assert_eq!(grant.gateway_epoch_seconds, 0);
}

#[test]
fn version_2_lets_the_gateway_choose() {
    let reserved = "<NewReservedPort>4242</NewReservedPort>".to_string();
    let (log, result) = run(
        WanService::WanIpConnection2,
        None,
        Some(60),
        vec![ip_body(), Err(Failure::OnlyPermanentLeasesSupported), Ok(reserved)],
    );
    assert_eq!(
        log,
        [
            "GetExternalIPAddress - -",
            "AddAnyPortMapping 8080 60",
            "AddAnyPortMapping 8080 0"
        ]
    );
    let grant = result.unwrap();
    assert_eq!(grant.external_port, port(4242));
    assert_eq!(grant.lifetime_seconds, 0);
}

#[test]
fn requested_ports_are_kept() {
    let (log, result) = run(
        WanService::WanIpConnection2,
        Some(port(1234)),
        Some(60),
        vec![ip_body(), Err(Failure::InvalidArgs), Ok(String::new())],
    );
    assert_eq!(
        log,
        [
            "GetExternalIPAddress - -",
            "AddPortMapping 1234 60",
            "AddPortMapping 1234 0"
        ]
    );
    let grant = result.unwrap();
    assert_eq!(grant.external_port, port(1234));
    assert_eq!(grant.lifetime_seconds, 0);
}

#[test]
fn mapping_takes_at_most_five_actions() {
    let (log, result) = run(
        WanService::WanIpConnection2,
        None,
        Some(60),
        vec![
            ip_body(),
            Err(Failure::ActionFailed),
            Err(Failure::OptionalActionNotImplemented),
            Err(Failure::OnlyPermanentLeasesSupported),
            Err(Failure::ActionFailed),
        ],
    );
    assert_eq!(
        log,
        [
            "GetExternalIPAddress - -",
            "AddAnyPortMapping 8080 60",
            "AddAnyPortMapping 8080 0",
            "AddPortMapping 8080 60",
            "AddPortMapping 8080 0"
        ]
    );
    assert!(matches!(result, Err(Failure::ActionFailed)));
}

#[test]
fn mapping_failures() {
    let (log, result) = run(
        WanService::WanIpConnection1,
        None,
        None,
        vec![Err(Failure::Timeout)],
    );
    assert_eq!(log.len(), 1);
    assert!(matches!(result, Err(Failure::Timeout)));

    // A permanent request is not retried.
    let (log, _) = run(
        WanService::WanIpConnection1,
        None,
        Some(0),
        vec![ip_body(), Err(Failure::InvalidArgs)],
    );
    assert_eq!(log.len(), 2);

    let (_, result) = run(
        WanService::WanIpConnection2,
        None,
        None,
        vec![ip_body(), Ok("<NewReservedPort>0</NewReservedPort>".to_string())],
    );
    assert!(matches!(
        result,
        Err(Failure::InvalidResponse(InvalidResponseKind::InvalidValue { tag: "NewReservedPort", value })) if value == "0"
    ));
    let (_, result) = run(
        WanService::WanIpConnection2,
        None,
        None,
        vec![ip_body(), Ok(String::new())],
    );
    assert!(matches!(
        result,
        Err(Failure::InvalidResponse(InvalidResponseKind::MissingTag("NewReservedPort")))
    ));
}

#[test]
fn permanent_mappings_effectively_never_expire() {
    let grant = Grant {
        external_port: port(9),
        external_ip: external(),
        lifetime_seconds: 0,
        gateway_epoch_seconds: 0,
    };
    let mapping = port_mapping_with_endpoint(
        gateway(),
        &endpoint(WanService::WanIpConnection1),
        IpAddr::V4(v4(192, 168, 1, 2)),
        InternetProtocol::Udp,
        port(8),
        PortMappingOptions::default(),
        grant,
        Instant { nanos: 5 },
    );
    assert_eq!(mapping.lifetime(), 0);
    assert_eq!(mapping.expiration().nanos, 5 + 4_294_967_295_000_000_000);
    assert_eq!(mapping.renew_after().nanos, mapping.expiration().nanos);
    assert_eq!(mapping.timeout_config.max_retries, 3);
    assert_eq!(mapping.timeout_config.initial_timeout, Duration::from_secs(2));
    assert!(matches!(mapping.mapping_type(), PortMappingType::Upnp { .. }));
    assert_eq!(mapping.mapping_type().text(), "UPnP");
}

#[test]
fn dropping_names_the_external_port() {
    let action = drop_action(InternetProtocol::Udp, port(77));
    assert_eq!(action.name, "DeletePortMapping");
    assert_eq!(
        action.arguments,
        "<NewRemoteHost></NewRemoteHost><NewExternalPort>77</NewExternalPort><NewProtocol>UDP</NewProtocol>"
    );
    assert!(try_drop_mapping(Ok(String::new())).is_ok());
    assert!(matches!(
        try_drop_mapping(Err(Failure::NoSuchEntryInArray)),
        Err(Failure::NoSuchEntryInArray)
    ));
}

#[test]
fn redirects_are_followed_a_few_times() {
    let mut fetch = LocationFetch::new(gateway(), "http://other:5000/desc").unwrap();
    let LocationStep::Request(target) = fetch.first_step() else {
        panic!("no request");
    };
    assert_eq!(
        target,
        SocketAddr::V4 {
            ip: v4(192, 168, 1, 1),
            port: 5000
        }
    );
    assert_eq!(
        fetch.request(&target, "192.168.1.1"),
        "GET /desc HTTP/1.1\r\nHost: 192.168.1.1:5000\r\nConnection: close\r\n\r\n"
    );
    for (i, location) in ["/a", "http://x:6000", "/b"].into_iter().enumerate() {
        let redirect = HttpResponse {
            location: Some(location.to_string()),
            ..response([301, 302, 308][i], "")
        };
        assert!(matches!(fetch.advance(Ok(redirect)), LocationStep::Request(_)));
    }
    assert_eq!(fetch.authority, "x:6000");
    assert_eq!(fetch.path, "/b");
    let redirect = HttpResponse {
        location: Some("/c".to_string()),
        ..response(303, "")
    };
    assert!(matches!(
        fetch.advance(Ok(redirect)),
        LocationStep::Failed(Failure::HttpStatus(303))
    ));
}

#[test]
fn locations_that_lead_nowhere() {
    assert!(matches!(
        LocationFetch::new(gateway(), "https://x"),
        Err(Failure::InvalidResponse(InvalidResponseKind::InvalidUrl(u))) if u == "https://x"
    ));
    let fetch = LocationFetch::new(gateway(), "http://x:y/").unwrap();
    assert!(matches!(
        fetch.first_step(),
        LocationStep::Failed(Failure::InvalidResponse(InvalidResponseKind::InvalidUrl(u))) if u == "x:y"
    ));
    let mut fetch = LocationFetch::new(gateway(), "http://x/").unwrap();
    assert!(matches!(
        fetch.advance(Ok(response(302, ""))),
        LocationStep::Failed(Failure::HttpStatus(302))
    ));
    assert!(matches!(
        fetch.advance(Ok(response(200, "<root/>"))),
        LocationStep::Failed(Failure::InvalidResponse(InvalidResponseKind::NoWanConnectionService))
    ));
    assert!(matches!(
        fetch.advance(Err(Failure::Timeout)),
        LocationStep::Failed(Failure::Timeout)
    ));
    let redirect = HttpResponse {
        location: Some("desc.xml".to_string()),
        ..response(307, "")
    };
    assert!(matches!(
        fetch.advance(Ok(redirect)),
        LocationStep::Failed(Failure::InvalidResponse(InvalidResponseKind::InvalidUrl(u))) if u == "desc.xml"
    ));
}

fn description(services: &[(&str, &str, &str)]) -> String {
    services
        .iter()
        .map(|(name, control, event)| {
            format!(
                "<service><serviceType>urn:schemas-upnp-org:service:{name}</serviceType>\
                 <controlURL>{control}</controlURL><eventSubURL>{event}</eventSubURL></service>"
            )
        })
        .collect()
}

#[test]
fn endpoints_are_on_the_gateway() {
    let mut fetch = LocationFetch::new(gateway(), "http://10.9.9.9:5000/a/desc.xml").unwrap();
    let text = description(&[
        ("WANPPPConnection:1", "http://10.0.0.1:7/p", "http://x:bad/"),
        ("WANIPConnection:1", "ctl", "evt"),
    ]);
    let LocationStep::Choose(choice) = fetch.advance(Ok(response(200, &text))) else {
        panic!("no endpoints");
    };
    let first = &choice.endpoints[0];
    assert_eq!(first.service, WanService::WanIpConnection1);
    assert_eq!(first.control_path, "/a/ctl");
    assert_eq!(
        first.address,
        SocketAddr::V4 {
            ip: v4(192, 168, 1, 1),
            port: 5000
        }
    );
    assert_eq!(first.event_url.as_ref().unwrap().path, "/a/evt");
    let second = &choice.endpoints[1];
    assert_eq!(
        second.address,
        SocketAddr::V4 {
            ip: v4(192, 168, 1, 1),
            port: 7
        }
    );
    // A malformed event URL only disables eventing.
    assert!(second.event_url.is_none());

    let text = description(&[("WANIPConnection:1", "http://h:x/c", "")]);
    let mut fetch = LocationFetch::new(gateway(), "http://g/").unwrap();
    assert!(matches!(
        fetch.advance(Ok(response(200, &text))),
        LocationStep::Failed(Failure::InvalidResponse(InvalidResponseKind::InvalidUrl(u))) if u == "h:x"
    ));
}

#[test]
fn connected_services_are_preferred() {
    let endpoints = || {
        vec![
            endpoint(WanService::WanIpConnection2),
            endpoint(WanService::WanIpConnection1),
            endpoint(WanService::WanPppConnection1),
        ]
    };
    let mut choice = EndpointChoice::new(endpoints());
    assert!(choice.is_open());
    assert_eq!(choice.candidate().service, WanService::WanIpConnection2);
    assert!(choice.answer(Some(false)).is_none());
    assert_eq!(
        choice.answer(Some(true)).unwrap().service,
        WanService::WanIpConnection1
    );

    // A service which does not report its status is used.
    let mut choice = EndpointChoice::new(endpoints());
    assert_eq!(choice.answer(None).unwrap().service, WanService::WanIpConnection2);

    // When none is connected, the most preferred is used.
    let mut choice = EndpointChoice::new(endpoints());
    assert!(choice.answer(Some(false)).is_none());
    assert!(choice.answer(Some(false)).is_none());
    assert_eq!(
        choice.answer(Some(false)).unwrap().service,
        WanService::WanIpConnection2
    );

    let choice = EndpointChoice::new(vec![endpoint(WanService::WanPppConnection1)]);
    assert!(!choice.is_open());
}

fn at(millis: u128) -> Instant {
    Instant {
        nanos: millis * 1_000_000,
    }
}

fn config(initial: u64, max_retries: usize, max: Option<u64>) -> TimeoutConfig {
    TimeoutConfig {
        initial_timeout: Duration::from_millis(initial),
        max_retries,
        max_retry_timeout: max.map(Duration::from_millis),
    }
}

fn found(location: &str, extra: &str) -> Vec<u8> {
    format!("HTTP/1.1 200 OK\r\nLOCATION: {location}\r\nST: {extra}\r\n\r\n").into_bytes()
}

fn datagram(discovery: &mut Discovery, bytes: &[u8], from_gateway: bool, now: u128) -> DiscoveryAction {
    let source = if from_gateway {
        IpAddr::from(gateway())
    } else {
        IpAddr::V4(v4(10, 0, 0, 1))
    };
    discovery.step(
        DiscoveryEvent::Datagram {
            datagram: bytes,
            source,
        },
        at(now),
    )
}

fn expect_fetch(action: DiscoveryAction, location: &str) {
    match action {
        DiscoveryAction::Fetch(l) => assert_eq!(l, location),
        other => panic!("unexpected {other:?}"),
    }
}

fn expect_receive(action: DiscoveryAction, millis: u128) {
    match action {
        DiscoveryAction::Receive { nanos } => assert_eq!(nanos, millis * 1_000_000),
        other => panic!("unexpected {other:?}"),
    }
}

#[test]
fn discovery_prefers_version_2_and_the_gateway() {
    let mut discovery = Discovery::new(gateway(), Some(config(1000, 0, None)));
    expect_receive(discovery.step(DiscoveryEvent::Sent, at(0)), 1000);
    // Others are kept for last, and unusable responses are ignored.
    expect_receive(datagram(&mut discovery, &found("other", ""), false, 10), 990);
    expect_receive(datagram(&mut discovery, b"junk", true, 20), 980);
    // The first response of the gateway gives others a brief chance.
    expect_receive(datagram(&mut discovery, &found("one", ""), true, 100), 50);
    expect_receive(
        datagram(&mut discovery, &found("two", "x:InternetGatewayDevice:2"), true, 120),
        30,
    );
    expect_receive(datagram(&mut discovery, &found("two", ""), true, 130), 20);
    expect_fetch(discovery.step(DiscoveryEvent::Quiet, at(150)), "two");
    expect_fetch(
        discovery.step(DiscoveryEvent::Fetched(Err(Failure::HttpStatus(404))), at(200)),
        "one",
    );
    // The repeated location is skipped, and collection goes on until the window has closed.
    expect_receive(
        discovery.step(DiscoveryEvent::Fetched(Err(Failure::Timeout)), at(300)),
        700,
    );
    expect_fetch(discovery.step(DiscoveryEvent::Quiet, at(1000)), "other");
    match discovery.step(
        DiscoveryEvent::Fetched(Ok(endpoint(WanService::WanIpConnection1))),
        at(1100),
    ) {
        DiscoveryAction::Found(found) => assert_eq!(found.service, WanService::WanIpConnection1),
        other => panic!("unexpected {other:?}"),
    }
}

#[test]
fn discovery_retries_with_longer_waits() {
    let mut discovery = Discovery::new(gateway(), Some(config(100, 3, Some(300))));
    let mut waits = vec![discovery.wait()];
    let mut now: u128 = 0;
    loop {
        let DiscoveryAction::Receive { nanos } = discovery.step(DiscoveryEvent::Sent, at(now)) else {
            panic!("not receiving");
        };
        now += nanos / 1_000_000;
        match discovery.step(DiscoveryEvent::Quiet, at(now)) {
            DiscoveryAction::Search => waits.push(discovery.wait()),
            DiscoveryAction::Failed(failure) => {
                assert!(matches!(failure, Failure::Timeout));
                break;
            }
            other => panic!("unexpected {other:?}"),
        }
    }
    assert_eq!(
        waits,
        [100, 200, 300, 300].map(Duration::from_millis).to_vec()
    );
}

#[test]
fn discovery_reports_the_last_failure() {
    let mut discovery = Discovery::new(gateway(), Some(config(100, 0, None)));
    discovery.step(DiscoveryEvent::Sent, at(0));
    datagram(&mut discovery, &found("a", ""), true, 0);
    expect_fetch(discovery.step(DiscoveryEvent::Quiet, at(100)), "a");
    assert!(matches!(
        discovery.step(DiscoveryEvent::Fetched(Err(Failure::HttpStatus(500))), at(110)),
        DiscoveryAction::Failed(Failure::HttpStatus(500))
    ));

    let mut discovery = Discovery::new(gateway(), None);
    assert_eq!(discovery.wait(), Duration::from_secs(2));
    assert!(matches!(
        discovery.step(DiscoveryEvent::SocketFailed(socket_error()), at(0)),
        DiscoveryAction::Failed(Failure::Socket(e)) if e.message == "broken"
    ));
}

#[test]
fn discovery_follows_a_limited_number_of_locations() {
    let mut discovery = Discovery::new(gateway(), Some(config(1000, 0, None)));
    discovery.step(DiscoveryEvent::Sent, at(0));
    for i in 0..12 {
        datagram(&mut discovery, &found(&format!("l{i}"), ""), true, 1);
    }
    expect_fetch(discovery.step(DiscoveryEvent::Quiet, at(1000)), "l0");
    for i in 1..10 {
        expect_fetch(
            discovery.step(DiscoveryEvent::Fetched(Err(Failure::Timeout)), at(1000)),
            &format!("l{i}"),
        );
    }
    assert!(matches!(
        discovery.step(DiscoveryEvent::Fetched(Err(Failure::InvalidAction)), at(1000)),
        DiscoveryAction::Failed(Failure::InvalidAction)
    ));
}

#[test]
fn subscriptions() {
    let callback = SocketAddr::V4 {
        ip: v4(192, 168, 1, 2),
        port: 4000,
    };
    assert_eq!(
        subscribe_request(&event_url(), "192.168.1.1", &callback, "192.168.1.2"),
        "SUBSCRIBE /evt HTTP/1.1\r\n\
         Host: 192.168.1.1:5000\r\n\
         CALLBACK: <http://192.168.1.2:4000/>\r\n\
         NT: upnp:event\r\n\
         TIMEOUT: Second-1800\r\n\
         Connection: close\r\n\r\n"
    );
    let accepted = HttpResponse {
        sid: Some("uuid:7".to_string()),
        timeout: Some("second-300".to_string()),
        ..response(200, "")
    };
    let subscription = subscribe(&event_url(), Ok(accepted)).unwrap();
    assert_eq!(subscription.sid, "uuid:7");
    assert_eq!(subscription.timeout_seconds, 300);
    assert_eq!(
        renew_request(&subscription, "192.168.1.1"),
        "SUBSCRIBE /evt HTTP/1.1\r\n\
         Host: 192.168.1.1:5000\r\n\
         SID: uuid:7\r\n\
         TIMEOUT: Second-1800\r\n\
         Connection: close\r\n\r\n"
    );
    assert_eq!(
        unsubscribe_request(&subscription, "192.168.1.1"),
        "UNSUBSCRIBE /evt HTTP/1.1\r\n\
         Host: 192.168.1.1:5000\r\n\
         SID: uuid:7\r\n\
         Connection: close\r\n\r\n"
    );
    assert!(matches!(
        subscribe(&event_url(), Ok(response(200, ""))),
        Err(Failure::InvalidResponse(InvalidResponseKind::MissingSubscriptionId))
    ));
    assert!(matches!(
        subscribe(&event_url(), Ok(response(412, ""))),
        Err(Failure::HttpStatus(412))
    ));
    assert!(matches!(renew_subscription(Ok(response(200, ""))), Ok(1800)));
    assert!(matches!(
        renew_subscription(Ok(response(412, ""))),
        Err(Failure::HttpStatus(412))
    ));
    assert!(unsubscribe(Ok(response(200, ""))).is_ok());
    assert!(matches!(
        unsubscribe(Ok(response(500, ""))),
        Err(Failure::HttpStatus(500))
    ));
    assert!(matches!(unsubscribe(Err(Failure::Timeout)), Err(Failure::Timeout)));
}

#[test]
fn subscription_timeouts() {
    assert_eq!(parse_subscription_timeout(Some("Second-1")), 1);
    assert_eq!(parse_subscription_timeout(Some("SECOND-4294967295")), u32::MAX);
    assert_eq!(parse_subscription_timeout(Some("Second-4294967296")), 1800);
    assert_eq!(parse_subscription_timeout(Some("Second-infinite")), 1800);
    assert_eq!(parse_subscription_timeout(Some("infinite")), 1800);
    assert_eq!(parse_subscription_timeout(Some("Secon\u{e9}-5")), 1800);
    assert_eq!(parse_subscription_timeout(None), 1800);
}

#[test]
fn notifications_are_acknowledged() {
    let read = |text: &str| {
        let mut reader = NotificationReader::new();
        reader.receive(text.as_bytes()).unwrap().unwrap()
    };
    let event = read(
        "notify / HTTP/1.1\r\nSID: s\r\nSEQ: 3\r\nContent-Length: 46\r\n\r\n\
         <ExternalIPAddress> 1.2.3.4</ExternalIPAddress>",
    );
    assert_eq!(
        event.acknowledgement("s"),
        "HTTP/1.1 200 OK\r\nContent-Length: 0\r\nConnection: close\r\n\r\n"
    );
    assert_eq!(
        event.acknowledgement("t"),
        "HTTP/1.1 412 Precondition Failed\r\nContent-Length: 0\r\nConnection: close\r\n\r\n"
    );
    assert_eq!(event.read_notification("t", Some(external())), Notification::NotOurs);
    assert_eq!(
        event.read_notification("s", Some(external())),
        Notification::Event {
            external_ip: None,
            seq: Some(3)
        }
    );

    let event = read(
        "NOTIFY / HTTP/1.1\r\nSID: s\r\nContent-Length: 47\r\n\r\n\
         <ExternalIPAddress> 1.2.3.4</ExternalIPAddress>",
    );
    assert_eq!(event.address_text(), Some("1.2.3.4"));
    assert_eq!(
        event.read_notification("s", Some(external())),
        Notification::Event {
            external_ip: Some(external()),
            seq: None
        }
    );
    let event = read(
        "NOTIFY / HTTP/1.1\r\nSID: s\r\nContent-Length: 40\r\n\r\n\
         <ExternalIPAddress> </ExternalIPAddress>",
    );
    assert_eq!(
        event.read_notification("s", None),
        Notification::Event {
            external_ip: Some(IpAddr::V4(v4(0, 0, 0, 0))),
            seq: None
        }
    );
    assert!(!read("POST / HTTP/1.1\r\nSID: s\r\n\r\n").is_ours("s"));
    assert!(!read("NOTIFY / HTTP/1.1\r\n\r\n").is_ours("s"));

    let mut reader = NotificationReader::new();
    assert!(matches!(
        reader.receive(&vec![b'x'; 256 * 1024 + 1]),
        Err(Failure::InvalidResponse(InvalidResponseKind::ResponseTooLarge))
    ));
    let mut reader = NotificationReader::new();
    assert!(reader.receive(b"NOTIFY /").unwrap().is_none());
    assert!(matches!(
        reader.receive(b""),
        Err(Failure::InvalidResponse(InvalidResponseKind::HttpResponse))
    ));
}

#[test]
fn notifications_can_be_read_in_any_pieces() {
    let message = b"NOTIFY / HTTP/1.1\r\nSID: s\r\nTransfer-Encoding: chunked\r\n\r\n2\r\nab\r\n0\r\n\r\n";
    for size in [1, 4, 5, 1000] {
        let mut reader = NotificationReader::new();
        let found = message
            .chunks(size)
            .find_map(|chunk| reader.receive(chunk).unwrap());
        assert_eq!(found.unwrap().body, "ab");
    }
}
