use crab_nat::address::{GatewayAddress, IpAddr, Ipv4Addr, Ipv6Addr, NonZeroU16, SocketAddr};
use crab_nat::binding::{
    binding_for, callback_address, BindingAction, BindingEvent, CallbackEvent, EventBinding,
    MappingBinding,
};
use crab_nat::failures::{SocketError, SocketErrorKind};
use crab_nat::listener::{
    announced_epoch, following_seq, AddressChange, AddressChangeListener, ListenerAction,
    ListenerEvent,
};
use crab_nat::mapping::Grant;
use crab_nat::natpmp;
use crab_nat::options::chain_pcp_timeout_config;
use crab_nat::time::{Duration, Instant};
use crab_nat::upnp::subscription::{EventSubscription, Notification};
use crab_nat::upnp::{ControlEndpoint, EventUrl, Failure, WanService};
use crab_nat::{InternetProtocol, ListenerFailure, PortMapping, PortMappingType};

fn v4(a: u8, b: u8, c: u8, d: u8) -> Ipv4Addr {
    Ipv4Addr {
        bits: u32::from_be_bytes([a, b, c, d]),
    }
}

fn gateway() -> GatewayAddress {
    GatewayAddress::IpV4(v4(192, 168, 1, 1))
}

fn gateway_ip() -> IpAddr {
    IpAddr::from(gateway())
}

fn stranger() -> IpAddr {
    IpAddr::V4(v4(10, 0, 0, 1))
}

fn client() -> IpAddr {
    IpAddr::V4(v4(192, 168, 1, 2))
}

fn port(n: u16) -> NonZeroU16 {
    NonZeroU16::new(n).unwrap()
}

fn event_url() -> EventUrl {
    EventUrl {
        address: SocketAddr::V4 {
            ip: v4(192, 168, 1, 9),
            port: 5000,
        },
        path: "/evt".to_string(),
        interface: None,
    }
}

fn endpoint(event_url: Option<EventUrl>) -> ControlEndpoint {
    ControlEndpoint {
        address: SocketAddr::V4 {
            ip: v4(192, 168, 1, 1),
            port: 5000,
        },
        control_path: "/ctl".to_string(),
        service: WanService::WanIpConnection1,
        event_url,
        interface: None,
    }
}

fn subscription(sid: &str, timeout_seconds: u32) -> EventSubscription {
    EventSubscription {
        url: event_url(),
        sid: sid.to_string(),
        timeout_seconds,
    }
}

fn socket_error() -> SocketError {
    SocketError {
        kind: SocketErrorKind::Other,
        message: "broken".to_string(),
    }
}

fn at(seconds: u128) -> Instant {
    Instant {
        nanos: seconds * 1_000_000_000,
    }
}

fn listener() -> AddressChangeListener {
    AddressChangeListener::bind(gateway(), Ok(())).unwrap()
}

fn subscribed(seq: Option<u32>) -> AddressChangeListener {
    listener().bind_with_endpoint(
        subscription("s", 300),
        Duration::from_secs(8),
        Some(IpAddr::V4(v4(1, 1, 1, 1))),
        seq,
        at(10),
    )
}

fn announce(address: Option<Ipv4Addr>, epoch: u32, consistent: bool) -> ListenerEvent {
    ListenerEvent::Announcement {
        source: gateway_ip(),
        natpmp: address.map(|a| (a, epoch)),
        pcp: Some(epoch),
        consistent,
    }
}

fn event(external_ip: Option<Ipv4Addr>, seq: Option<u32>) -> ListenerEvent {
    ListenerEvent::Notified(Ok(Notification::Event {
        external_ip: external_ip.map(IpAddr::V4),
        seq,
    }))
}

fn mapping(mapping_type: PortMappingType, external_ip: IpAddr) -> PortMapping {
    PortMapping::granted(
        gateway(),
        InternetProtocol::Tcp,
        port(8080),
        Grant {
            external_port: port(80),
            external_ip,
            lifetime_seconds: 100,
            gateway_epoch_seconds: 50,
        },
        mapping_type,
        chain_pcp_timeout_config(),
        at(1000),
    )
}

#[test]
fn sequences_wrap_to_one() {
    assert_eq!(following_seq(0), 1);
    assert_eq!(following_seq(41), 42);
    assert_eq!(following_seq(u32::MAX), 1);
}

#[test]
fn repeated_announcements_are_suppressed() {
    let mut l = listener();
    assert!(matches!(l.recv(), ListenerAction::Wait));
    let new = IpAddr::V4(v4(1, 2, 3, 4));
    assert!(matches!(
        l.step(announce(Some(v4(1, 2, 3, 4)), 5, true), at(1)),
        ListenerAction::Report(AddressChange::NewAddress(a)) if a == new
    ));
    assert!(matches!(
        l.step(announce(Some(v4(1, 2, 3, 4)), 6, true), at(2)),
        ListenerAction::Wait
    ));
    // One message can produce more than one change, reported in order.
    assert!(matches!(
        l.step(announce(Some(v4(5, 6, 7, 8)), 0, false), at(3)),
        ListenerAction::Report(AddressChange::GatewayReset { epoch_seconds: 0 })
    ));
    assert!(matches!(l.recv(), ListenerAction::Report(AddressChange::NewAddress(_))));
    assert!(matches!(l.recv(), ListenerAction::Wait));
    // A PCP announcement carries an epoch alone.
    assert!(matches!(
        l.step(announce(None, 9, false), at(4)),
        ListenerAction::Report(AddressChange::GatewayReset { epoch_seconds: 9 })
    ));
}

#[test]
fn first_epochs_are_not_resets() {
    let mut l = listener();
    assert_eq!(l.previous_epoch(at(0)), None);
    assert!(matches!(l.step(announce(None, 9, false), at(4)), ListenerAction::Wait));
    assert_eq!(l.previous_epoch(at(7)), Some((3, 9)));
    assert_eq!(l.previous_epoch(at(1)), Some((0, 9)));
    assert_eq!(announced_epoch(Some((v4(1, 1, 1, 1), 3)), Some(4)), Some(3));
    assert_eq!(announced_epoch(None, Some(4)), Some(4));
    assert_eq!(announced_epoch(None, None), None);
}

#[test]
fn other_sources_are_ignored() {
    let mut l = subscribed(Some(0));
    let forged = ListenerEvent::Announcement {
        source: stranger(),
        natpmp: Some((v4(9, 9, 9, 9), 0)),
        pcp: None,
        consistent: false,
    };
    assert!(matches!(l.step(forged, at(11)), ListenerAction::Wait));
    assert!(matches!(
        l.step(ListenerEvent::Connection { source: stranger() }, at(11)),
        ListenerAction::Wait
    ));
    // Events may also come from the address hosting the event URL.
    let host = event_url().address.ip();
    assert!(matches!(
        l.step(ListenerEvent::Connection { source: host }, at(11)),
        ListenerAction::Read
    ));
}

#[test]
fn events_are_reported() {
    let mut l = subscribed(Some(0));
    let connect = || ListenerEvent::Connection { source: gateway_ip() };
    assert!(matches!(l.step(connect(), at(11)), ListenerAction::Read));
    assert!(matches!(
        l.step(event(Some(v4(2, 2, 2, 2)), Some(1)), at(11)),
        ListenerAction::Report(AddressChange::NewAddress(_))
    ));
    assert_eq!(l.events().unwrap().next_seq, Some(2));
    // The address of the initial event is known.
    l.step(connect(), at(12));
    assert!(matches!(l.step(event(None, None), at(12)), ListenerAction::Wait));
    assert_eq!(l.events().unwrap().next_seq, Some(2));
    l.step(connect(), at(13));
    assert!(matches!(
        l.step(ListenerEvent::Notified(Ok(Notification::NotOurs)), at(13)),
        ListenerAction::Wait
    ));
    l.step(connect(), at(13));
    assert!(matches!(
        l.step(ListenerEvent::Notified(Err(Failure::Timeout)), at(13)),
        ListenerAction::Wait
    ));
}

#[test]
fn gaps_resynchronize() {
    let mut l = subscribed(Some(4));
    l.step(ListenerEvent::Connection { source: gateway_ip() }, at(11));
    assert!(matches!(
        l.step(event(Some(v4(2, 2, 2, 2)), Some(7)), at(11)),
        ListenerAction::Resubscribe
    ));
    assert!(matches!(
        l.step(ListenerEvent::Resubscribed(Ok(subscription("t", 60))), at(20)),
        ListenerAction::Wait
    ));
    let events = l.events().unwrap();
    assert_eq!(events.subscription.sid, "t");
    assert_eq!(events.next_seq, None);
    assert_eq!(events.renew_at, at(50));

    // A failure after a gap leaves the renewal time as it is.
    let mut l = subscribed(Some(4));
    l.step(ListenerEvent::Connection { source: gateway_ip() }, at(11));
    l.step(event(None, Some(7)), at(11));
    assert!(matches!(
        l.step(ListenerEvent::Resubscribed(Err(ListenerFailure::Upnp(Failure::Timeout))), at(20)),
        ListenerAction::Fail(ListenerFailure::Upnp(Failure::Timeout))
    ));
    assert_eq!(l.events().unwrap().renew_at, at(160));
}

#[test]
fn subscriptions_are_renewed_halfway() {
    let mut l = subscribed(None);
    assert_eq!(l.events().unwrap().renew_at, at(160));
    assert!(matches!(l.step(ListenerEvent::RenewalDue, at(160)), ListenerAction::Renew));
    assert!(matches!(l.step(ListenerEvent::Renewed(Ok(1)), at(161)), ListenerAction::Wait));
    assert_eq!(l.events().unwrap().renew_at, at(162));
    assert_eq!(l.events().unwrap().subscription.timeout_seconds, 1);

    l.step(ListenerEvent::RenewalDue, at(162));
    assert!(matches!(
        l.step(ListenerEvent::Renewed(Err(Failure::HttpStatus(412))), at(162)),
        ListenerAction::Resubscribe
    ));
    assert!(matches!(
        l.step(ListenerEvent::Resubscribed(Err(ListenerFailure::Socket(socket_error()))), at(163)),
        ListenerAction::Fail(ListenerFailure::Socket(_))
    ));
    // The next attempt is delayed.
    assert_eq!(l.events().unwrap().renew_at, at(223));
}

#[test]
fn listener_failures() {
    assert!(matches!(
        AddressChangeListener::bind(gateway(), Err(socket_error())),
        Err(ListenerFailure::Socket(_))
    ));
    let mut l = listener();
    assert!(matches!(
        l.step(ListenerEvent::SocketFailed(socket_error()), at(0)),
        ListenerAction::Fail(ListenerFailure::Socket(_))
    ));
    assert!(matches!(
        AddressChangeListener::bind_with_upnp(Err(Failure::Timeout)),
        Err(ListenerFailure::Upnp(Failure::Timeout))
    ));
    assert!(AddressChangeListener::bind_with_upnp(Ok(endpoint(None))).is_ok());
    assert!(AddressChangeListener::shutdown(None).is_ok());
    assert!(AddressChangeListener::shutdown(Some(Ok(()))).is_ok());
    assert!(matches!(
        AddressChangeListener::shutdown(Some(Err(Failure::Timeout))),
        Err(ListenerFailure::Upnp(Failure::Timeout))
    ));
    assert_eq!(subscribed(None).into_events().unwrap().subscription.sid, "s");
    assert!(listener().into_events().is_none());
}

#[test]
fn listening_for_a_mapping() {
    let known = IpAddr::V4(v4(1, 2, 3, 4));
    let m = mapping(PortMappingType::NatPmp, known);
    assert!(matches!(binding_for(&m), MappingBinding::Announcements));
    let mut l = listener().bind_for_mapping(&m);
    // The observation of the mapping seeds the epoch check.
    assert_eq!(l.previous_epoch(at(1010)), Some((10, 50)));
    l.observe_report(&m, Err(natpmp::Failure::Timeout), false, at(1010));
    assert!(matches!(l.recv(), ListenerAction::Wait));
    l.observe_report(&m, Ok((v4(1, 2, 3, 4), 60)), true, at(1010));
    assert!(matches!(l.recv(), ListenerAction::Wait));
    l.observe_report(&m, Ok((v4(4, 3, 2, 1), 0)), false, at(1020));
    assert!(matches!(
        l.recv(),
        ListenerAction::Report(AddressChange::GatewayReset { epoch_seconds: 0 })
    ));
    assert!(matches!(l.recv(), ListenerAction::Report(AddressChange::NewAddress(_))));

    // The IPv4 address means nothing to a mapping with an IPv6 address.
    let m = mapping(PortMappingType::NatPmp, IpAddr::V6(Ipv6Addr { bits: 8 }));
    let mut l = listener().bind_for_mapping(&m);
    l.observe_report(&m, Ok((v4(4, 3, 2, 1), 60)), true, at(1020));
    assert!(matches!(l.recv(), ListenerAction::Wait));

    let upnp = |ip: IpAddr| {
        mapping(
            PortMappingType::Upnp {
                client: client(),
                endpoint: endpoint(Some(event_url())),
            },
            ip,
        )
    };
    let m = upnp(known);
    assert!(matches!(binding_for(&m), MappingBinding::Events { client: c, .. } if c == client()));
    // The initial event differs from what the mapping knows.
    let mut l = subscribed(None).bind_for_mapping(&m);
    assert!(matches!(
        l.recv(),
        ListenerAction::Report(AddressChange::NewAddress(a)) if a == IpAddr::V4(v4(1, 1, 1, 1))
    ));
    let mut l = subscribed(None).bind_for_mapping(&upnp(IpAddr::V4(v4(1, 1, 1, 1))));
    assert!(matches!(l.recv(), ListenerAction::Wait));
    let mut l = listener().bind_for_mapping(&m);
    l.observe_address(known);
    assert!(matches!(l.recv(), ListenerAction::Wait));
}

fn binding() -> EventBinding {
    EventBinding::new(
        gateway(),
        &endpoint(Some(event_url())),
        client(),
        Some(port(4000)),
        None,
    )
    .unwrap()
}

fn awaiting() -> EventBinding {
    let mut b = binding();
    match b.step(BindingEvent::Bound(Ok(())), at(0)) {
        BindingAction::BindCallback(address) => assert_eq!(
            address,
            SocketAddr::V4 {
                ip: v4(192, 168, 1, 2),
                port: 4000
            }
        ),
        other => panic!("unexpected {other:?}"),
    }
    assert!(matches!(
        b.step(BindingEvent::CallbackBound(Ok(())), at(0)),
        BindingAction::Subscribe
    ));
    assert!(b.subscription().is_none());
    assert!(matches!(
        b.step(BindingEvent::Subscribed(Ok(subscription("s", 300))), at(5)),
        BindingAction::Accept
    ));
    assert_eq!(b.deadline(), Some(at(13)));
    assert_eq!(b.subscription().unwrap().sid, "s");
    b
}

#[test]
fn bindings_wait_for_the_initial_event() {
    let mut b = awaiting();
    let callback = |e| BindingEvent::Callback(e);
    assert!(matches!(
        b.step(callback(CallbackEvent::Accepted { source: stranger() }), at(6)),
        BindingAction::Accept
    ));
    for other in [Ok(Notification::NotOurs), Err(Failure::Timeout)] {
        assert!(matches!(
            b.step(callback(CallbackEvent::Accepted { source: gateway_ip() }), at(6)),
            BindingAction::Read
        ));
        assert!(matches!(
            b.step(callback(CallbackEvent::Notified(other)), at(6)),
            BindingAction::Accept
        ));
    }
    b.step(callback(CallbackEvent::Accepted { source: gateway_ip() }), at(7));
    let initial = Notification::Event {
        external_ip: Some(client()),
        seq: Some(0),
    };
    match b.step(callback(CallbackEvent::Notified(Ok(initial))), at(8)) {
        BindingAction::Done(Ok(mut l)) => {
            assert_eq!(l.events().unwrap().next_seq, Some(1));
            assert_eq!(l.events().unwrap().renew_at, at(158));
            assert_eq!(l.events().unwrap().timeout, Duration::from_secs(8));
            assert!(matches!(l.recv(), ListenerAction::Wait));
        }
        other => panic!("unexpected {other:?}"),
    }
}

#[test]
fn failed_bindings_release_their_subscription() {
    for event in [CallbackEvent::AcceptTimedOut, CallbackEvent::ReadTimedOut] {
        let mut b = awaiting();
        assert!(matches!(
            b.step(BindingEvent::Callback(event), at(13)),
            BindingAction::Unsubscribe
        ));
        assert_eq!(b.subscription().unwrap().sid, "s");
        assert!(matches!(
            b.step(BindingEvent::Released, at(14)),
            BindingAction::Done(Err(ListenerFailure::CallbackUnreachable))
        ));
    }
    let mut b = awaiting();
    b.step(
        BindingEvent::Callback(CallbackEvent::AcceptFailed(socket_error())),
        at(13),
    );
    assert!(matches!(
        b.step(BindingEvent::Released, at(14)),
        BindingAction::Done(Err(ListenerFailure::Socket(_)))
    ));
}

#[test]
fn bindings_which_fail_early() {
    assert!(matches!(
        EventBinding::new(gateway(), &endpoint(None), client(), None, None),
        Err(ListenerFailure::EventingUnsupported)
    ));
    assert!(matches!(
        binding().step(BindingEvent::Bound(Err(socket_error())), at(0)),
        BindingAction::Done(Err(ListenerFailure::Socket(_)))
    ));
    let mut b = binding();
    b.step(BindingEvent::Bound(Ok(())), at(0));
    assert!(matches!(
        b.step(BindingEvent::CallbackBound(Err(socket_error())), at(0)),
        BindingAction::Done(Err(ListenerFailure::Socket(_)))
    ));
    let mut b = binding();
    b.step(BindingEvent::Bound(Ok(())), at(0));
    b.step(BindingEvent::CallbackBound(Ok(())), at(0));
    assert!(matches!(
        b.step(BindingEvent::Subscribed(Err(Failure::HttpStatus(501))), at(0)),
        BindingAction::Done(Err(ListenerFailure::Upnp(Failure::HttpStatus(501))))
    ));
    assert_eq!(callback_address(client(), None).port(), 0);
}

#[test]
fn receiving_again_loses_nothing() {
    let mut l = subscribed(None);
    l.observe_address(IpAddr::V4(v4(3, 3, 3, 3)));
    // Receiving is cancelled while a notification is being read.
    l.step(ListenerEvent::Connection { source: gateway_ip() }, at(11));
    assert!(matches!(l.recv(), ListenerAction::Report(AddressChange::NewAddress(_))));
    assert!(matches!(l.recv(), ListenerAction::Wait));
    assert!(l.events().is_some());
}

#[test]
fn successive_reported_addresses_differ() {
    let known = v4(1, 2, 3, 4);
    let m = mapping(PortMappingType::NatPmp, IpAddr::V4(known));
    let mut l = listener().bind_for_mapping(&m);
    let mut reported: Vec<IpAddr> = Vec::new();
    let (a, b) = (v4(5, 5, 5, 5), v4(6, 6, 6, 6));
    for (i, address) in [known, a, a, b, a, b, b, known].iter().enumerate() {
        // Resets between the announcements delay the reports, but part no equal addresses.
        let consistent = i % 2 == 0;
        let step = l.step(announce(Some(*address), 60, consistent), at(1010 + i as u128));
        if let ListenerAction::Report(AddressChange::NewAddress(new)) = step {
            reported.push(new);
        }
    }
    while let ListenerAction::Report(change) = l.recv() {
        if let AddressChange::NewAddress(new) = change {
            reported.push(new);
        }
    }
    let expected: Vec<IpAddr> = [a, b, a, b, known].iter().map(|x| IpAddr::V4(*x)).collect();
    assert_eq!(reported, expected);
}
