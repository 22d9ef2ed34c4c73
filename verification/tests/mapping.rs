use crab_nat::address::{
    announcement_address, announcement_group, local_address, GatewayAddress, IpAddr, Ipv4Addr,
    Ipv6Addr, MulticastGroup, NonZeroU16, SocketAddr,
};
use crab_nat::failures::{SocketError, SocketErrorKind};
use crab_nat::fallback::{
    is_port_closed_error, natpmp_failure_is_protocol_specific, pcp_failure_fallback, ChainAction,
    ChainEvent, FallbackChain, PcpFallback,
};
use crab_nat::mapping::{DropRequest, Grant, RenewRequest, RenewStep};
use crab_nat::mark::SocketMark;
use crab_nat::options::{chain_pcp_timeout_config, tcp_timeout};
use crab_nat::retry::{Attempt, Request, RequestSendError, RetryStep};
use crab_nat::time::{Duration, Instant, MAX_DURATION_NANOS};
use crab_nat::upnp::{ControlEndpoint, WanService};
use crab_nat::{
    fwmark, natpmp, pcp, set_fwmark, upnp, FallbackFailure, InternetProtocol, ListenerFailure,
    MappingFailure, PortMapping, PortMappingOptions, PortMappingType, TimeoutConfig,
};

fn v4(a: u8, b: u8, c: u8, d: u8) -> Ipv4Addr {
    Ipv4Addr {
        bits: u32::from_be_bytes([a, b, c, d]),
    }
}

fn gateway() -> GatewayAddress {
    GatewayAddress::IpV4(v4(192, 168, 1, 1))
}

fn client() -> IpAddr {
    IpAddr::V4(v4(192, 168, 1, 2))
}

fn port(n: u16) -> NonZeroU16 {
    NonZeroU16::new(n).unwrap()
}

fn socket_error(kind: SocketErrorKind) -> SocketError {
    SocketError {
        kind,
        message: "broken".to_string(),
    }
}

fn endpoint() -> ControlEndpoint {
    ControlEndpoint {
        address: SocketAddr::V4 {
            ip: v4(192, 168, 1, 1),
            port: 5000,
        },
        control_path: "/ctl".to_string(),
        service: WanService::WanIpConnection1,
        event_url: None,
        interface: None,
    }
}

fn mapping(mapping_type: PortMappingType, external_port: u16) -> PortMapping {
    PortMapping::granted(
        gateway(),
        InternetProtocol::Tcp,
        port(8080),
        Grant {
            external_port: port(external_port),
            external_ip: IpAddr::V4(v4(1, 2, 3, 4)),
            lifetime_seconds: 101,
            gateway_epoch_seconds: 9,
        },
        mapping_type,
        chain_pcp_timeout_config(),
        Instant {
            nanos: 1_000_000_000_000,
        },
    )
}

fn upnp_type() -> PortMappingType {
    PortMappingType::Upnp {
        client: client(),
        endpoint: endpoint(),
    }
}

#[test]
fn mapping_getters() {
    let m = mapping(PortMappingType::NatPmp, 1234);
    assert_eq!(m.gateway(), gateway());
    assert_eq!(m.gateway_scope_id(), None);
    assert_eq!(m.protocol(), InternetProtocol::Tcp);
    assert_eq!(m.internal_port().get(), 8080);
    assert_eq!(m.external_port().get(), 1234);
    assert_eq!(m.external_ip(), IpAddr::V4(v4(1, 2, 3, 4)));
    assert_eq!(m.lifetime(), 101);
    assert_eq!(m.gateway_epoch(), 9);
    assert!(matches!(m.mapping_type(), PortMappingType::NatPmp));
    assert_eq!(m.mapping_type().text(), "NAT-PMP");
    assert_eq!(m.expiration().nanos, 1_101_000_000_000);
    // Half of the lifetime, in whole seconds, before it expires.
    assert_eq!(m.renew_after().nanos, 1_051_000_000_000);

    let scoped = PortMapping::granted(
        GatewayAddress::IpV6(Ipv6Addr { bits: 1 }, Some(6)),
        InternetProtocol::Udp,
        port(1),
        Grant {
            external_port: port(2),
            external_ip: client(),
            lifetime_seconds: 0,
            gateway_epoch_seconds: 0,
        },
        PortMappingType::Pcp {
            client: client(),
            nonce: [1, 2, 3],
        },
        chain_pcp_timeout_config(),
        Instant { nanos: 7 },
    );
    assert_eq!(scoped.gateway_scope_id(), Some(6));
    assert_eq!(scoped.expiration().nanos, 7);
    assert_eq!(scoped.clone().mapping_type().text(), "PCP");
}

#[test]
fn renewals() {
    let mut m = mapping(upnp_type(), 1234);
    let options = m.renew_options();
    assert_eq!(options.external_port, Some(port(1234)));
    assert_eq!(options.lifetime_seconds, Some(101));
    assert!(matches!(m.renew_request(), RenewRequest::Upnp { client: c, .. } if c == client()));

    // A stale endpoint is rediscovered once.
    let stale = || MappingFailure::Upnp(upnp::Failure::HttpStatus(404));
    assert!(matches!(
        m.renew(Err(stale()), false),
        RenewStep::Rediscover { target, client: c, .. } if c == client() && target.gateway == gateway()
    ));
    assert!(matches!(
        m.renew(Err(MappingFailure::Upnp(upnp::Failure::Timeout)), false),
        RenewStep::Rediscover { .. }
    ));
    assert!(matches!(
        m.renew(
            Err(MappingFailure::Upnp(upnp::Failure::Socket(socket_error(SocketErrorKind::Other)))),
            false
        ),
        RenewStep::Rediscover { .. }
    ));
    assert!(matches!(
        m.renew(Err(stale()), true),
        RenewStep::Failed(MappingFailure::Upnp(upnp::Failure::HttpStatus(404)))
    ));
    assert!(matches!(
        m.renew(Err(MappingFailure::Upnp(upnp::Failure::HttpStatus(500))), false),
        RenewStep::Failed(_)
    ));
    assert_eq!(m.external_port().get(), 1234);

    // A renewal replaces the mapping.
    assert!(matches!(m.renew(Ok(mapping(upnp_type(), 5)), false), RenewStep::Renewed));
    assert_eq!(m.external_port().get(), 5);

    let mut m = mapping(PortMappingType::NatPmp, 1);
    match m.renew_request() {
        RenewRequest::NatPmp { target, options } => {
            assert_eq!(target.gateway, gateway());
            assert_eq!(target.protocol, InternetProtocol::Tcp);
            assert_eq!(target.internal_port, port(8080));
            assert_eq!(options.external_port, Some(port(1)));
            assert_eq!(options.lifetime_seconds, Some(101));
        }
        other => panic!("unexpected {other:?}"),
    }
    assert!(matches!(
        m.renew(Err(MappingFailure::NatPmp(natpmp::Failure::Timeout)), false),
        RenewStep::Failed(MappingFailure::NatPmp(natpmp::Failure::Timeout))
    ));
    let m = mapping(
        PortMappingType::Pcp {
            client: client(),
            nonce: [7, 8, 9],
        },
        1,
    );
    assert!(matches!(
        m.renew_request(),
        RenewRequest::Pcp { nonce: [7, 8, 9], external_ip, .. } if external_ip == IpAddr::V4(v4(1, 2, 3, 4))
    ));
}

#[test]
fn drops() {
    let m = mapping(upnp_type(), 1234);
    assert!(matches!(
        m.drop_request(),
        DropRequest::Upnp { external_port, .. } if external_port == port(1234)
    ));
    let (failure, m) = m
        .try_drop(Err(MappingFailure::Upnp(upnp::Failure::Timeout)))
        .unwrap_err();
    assert!(matches!(failure, MappingFailure::Upnp(upnp::Failure::Timeout)));
    assert_eq!(m.external_port().get(), 1234);
    assert!(m.try_drop(Ok(())).is_ok());

    match mapping(PortMappingType::NatPmp, 1).drop_request() {
        DropRequest::NatPmp { target } => {
            assert_eq!(target.gateway, gateway());
            assert_eq!(target.protocol, InternetProtocol::Tcp);
            assert_eq!(target.internal_port, port(8080));
            assert_eq!(target.timeout_config.max_retries, 3);
            assert_eq!(
                target.timeout_config.initial_timeout,
                Duration::from_millis(500)
            );
        }
        other => panic!("unexpected {other:?}"),
    }
    let pcp_type = PortMappingType::Pcp {
        client: client(),
        nonce: [1, 2, 3],
    };
    assert!(matches!(
        mapping(pcp_type, 1).drop_request(),
        DropRequest::Pcp { target, nonce: [1, 2, 3], .. } if target.internal_port == port(8080)
    ));
}

#[test]
fn categories_of_failures() {
    let closed = [SocketErrorKind::ConnectionRefused, SocketErrorKind::ConnectionReset];
    for kind in closed {
        assert!(is_port_closed_error(&socket_error(kind)));
        assert_eq!(
            pcp_failure_fallback(&pcp::Failure::Socket(socket_error(kind))),
            PcpFallback::Upnp
        );
        assert!(natpmp_failure_is_protocol_specific(&natpmp::Failure::Socket(socket_error(kind))));
    }
    let other = || socket_error(SocketErrorKind::Other);
    assert!(!is_port_closed_error(&other()));
    assert_eq!(pcp_failure_fallback(&pcp::Failure::Socket(other())), PcpFallback::Stop);
    assert!(!natpmp_failure_is_protocol_specific(&natpmp::Failure::Socket(other())));

    for failure in [
        pcp::Failure::UnsupportedVersion(0),
        pcp::Failure::InvalidResponse(String::new()),
        pcp::Failure::Nonce,
        pcp::Failure::MalformedRequest,
        pcp::Failure::NotAuthorized(5),
        pcp::Failure::AddressMismatch,
    ] {
        assert_eq!(pcp_failure_fallback(&failure), PcpFallback::NatPmp);
    }
    for failure in [
        pcp::Failure::Timeout,
        pcp::Failure::UnsupportedOpcode,
        pcp::Failure::UnsupportedOption,
        pcp::Failure::MalformedOption,
        pcp::Failure::UnsupportedProtocol,
    ] {
        assert_eq!(pcp_failure_fallback(&failure), PcpFallback::Upnp);
        assert_eq!(failure.retry_after_seconds(), None);
    }
    for failure in [
        pcp::Failure::NetworkFailure(5),
        pcp::Failure::NoResources(5),
        pcp::Failure::UserExceededQuota(5),
        pcp::Failure::CannotProvideExternal(5),
    ] {
        assert_eq!(pcp_failure_fallback(&failure), PcpFallback::Stop);
        assert_eq!(failure.retry_after_seconds(), Some(5));
    }
    assert_eq!(
        pcp_failure_fallback(&pcp::Failure::ExcessiveRemotePeers),
        PcpFallback::Stop
    );
    for failure in [
        natpmp::Failure::Timeout,
        natpmp::Failure::InvalidResponse(String::new()),
        natpmp::Failure::UnsupportedVersion(2),
        natpmp::Failure::NotAuthorized,
        natpmp::Failure::UnsupportedOpcode,
    ] {
        assert!(natpmp_failure_is_protocol_specific(&failure));
    }
    assert!(!natpmp_failure_is_protocol_specific(&natpmp::Failure::NetworkFailure));
    assert!(!natpmp_failure_is_protocol_specific(&natpmp::Failure::OutOfResources));
}

fn chain() -> FallbackChain {
    PortMapping::new(
        gateway(),
        client(),
        InternetProtocol::Tcp,
        port(8080),
        PortMappingOptions::default(),
    )
}

fn probe_ok() -> ChainEvent {
    ChainEvent::Probed(Ok(v4(1, 2, 3, 4)))
}

#[test]
fn chain_uses_pcp_first() {
    let mut c = chain();
    let options = c.pcp_options().timeout_config.unwrap();
    assert_eq!(options.initial_timeout, Duration::from_millis(500));
    assert_eq!(options.max_retries, 3);
    assert!(options.max_retry_timeout.is_none());
    match c.step(ChainEvent::Pcp(Ok(mapping(PortMappingType::NatPmp, 3)))) {
        ChainAction::Done(Ok(m)) => assert_eq!(m.external_port().get(), 3),
        other => panic!("unexpected {other:?}"),
    }

    let mut c = chain();
    assert!(matches!(
        c.step(ChainEvent::Pcp(Err(pcp::Failure::NoResources(30)))),
        ChainAction::Done(Err(FallbackFailure {
            failure: MappingFailure::Pcp(pcp::Failure::NoResources(30)),
            retry_after_seconds: Some(30)
        }))
    ));
}

#[test]
fn chain_attempts_natpmp_with_a_responder() {
    // The probe may answer before or after PCP fails.
    for probe_first in [true, false] {
        let mut c = chain();
        let failed = ChainEvent::Pcp(Err(pcp::Failure::Timeout));
        let (first, second) = if probe_first {
            (probe_ok(), failed)
        } else {
            (failed, probe_ok())
        };
        assert!(matches!(c.step(first), ChainAction::Wait));
        assert!(matches!(
            c.step(second),
            ChainAction::MapNatPmp { external_ip } if external_ip == v4(1, 2, 3, 4)
        ));
        assert!(matches!(
            c.step(ChainEvent::NatPmp(Ok(mapping(PortMappingType::NatPmp, 4)))),
            ChainAction::Done(Ok(_))
        ));
    }

    let mut c = chain();
    c.step(probe_ok());
    c.step(ChainEvent::Pcp(Err(pcp::Failure::UnsupportedVersion(0))));
    assert!(matches!(
        c.step(ChainEvent::NatPmp(Err(natpmp::Failure::OutOfResources))),
        ChainAction::Done(Err(FallbackFailure {
            failure: MappingFailure::NatPmp(natpmp::Failure::OutOfResources),
            retry_after_seconds: None
        }))
    ));
}

#[test]
fn chain_falls_back_to_upnp() {
    // Silence rules out both earlier protocols, whatever kept the probe from an answer.
    let mut c = chain();
    assert!(matches!(
        c.step(ChainEvent::Discovered(Ok(endpoint()))),
        ChainAction::Wait
    ));
    assert!(matches!(
        c.step(ChainEvent::Probed(Err(natpmp::Failure::OutOfResources))),
        ChainAction::Wait
    ));
    assert!(matches!(
        c.step(ChainEvent::Pcp(Err(pcp::Failure::Timeout))),
        ChainAction::MapUpnp(_)
    ));
    assert!(matches!(
        c.step(ChainEvent::Upnp(Ok(mapping(upnp_type(), 6)))),
        ChainAction::Done(Ok(_))
    ));

    // The failure of the probe stands for NAT-PMP where it is attempted in any case, and the
    // estimate of the PCP server is kept.
    let mut c = chain();
    assert!(matches!(
        c.step(ChainEvent::Pcp(Err(pcp::Failure::NotAuthorized(12)))),
        ChainAction::Wait
    ));
    assert!(matches!(
        c.step(ChainEvent::Probed(Err(natpmp::Failure::Timeout))),
        ChainAction::Wait
    ));
    assert!(matches!(
        c.step(ChainEvent::Discovered(Err(upnp::Failure::Timeout))),
        ChainAction::Done(Err(FallbackFailure {
            failure: MappingFailure::Upnp(upnp::Failure::Timeout),
            retry_after_seconds: Some(12)
        }))
    ));

    let mut c = chain();
    c.step(ChainEvent::Pcp(Err(pcp::Failure::Nonce)));
    assert!(matches!(
        c.step(ChainEvent::Probed(Err(natpmp::Failure::NetworkFailure))),
        ChainAction::Done(Err(FallbackFailure {
            failure: MappingFailure::NatPmp(natpmp::Failure::NetworkFailure),
            ..
        }))
    ));

    let mut c = chain();
    c.step(probe_ok());
    c.step(ChainEvent::Pcp(Err(pcp::Failure::AddressMismatch)));
    assert!(matches!(
        c.step(ChainEvent::NatPmp(Err(natpmp::Failure::NotAuthorized))),
        ChainAction::Wait
    ));
    assert!(matches!(
        c.step(ChainEvent::Discovered(Ok(endpoint()))),
        ChainAction::MapUpnp(_)
    ));
    assert!(matches!(
        c.step(ChainEvent::Upnp(Err(upnp::Failure::ActionFailed))),
        ChainAction::Done(Err(FallbackFailure {
            failure: MappingFailure::Upnp(upnp::Failure::ActionFailed),
            ..
        }))
    ));
}

#[test]
fn failure_messages() {
    let failure = FallbackFailure {
        failure: MappingFailure::Pcp(pcp::Failure::NoResources(30)),
        retry_after_seconds: Some(30),
    };
    assert_eq!(
        failure.message("no resources"),
        "PCP(no resources) (PCP server estimates the error will persist for 30 seconds)"
    );
    let failure = FallbackFailure {
        failure: MappingFailure::NatPmp(natpmp::Failure::Timeout),
        retry_after_seconds: None,
    };
    assert_eq!(failure.message("timeout"), "NAT-PMP(timeout)");
    assert_eq!(
        MappingFailure::from(upnp::Failure::Timeout).message("x"),
        "UPnP(x)"
    );
    assert_eq!(
        ListenerFailure::from(upnp::Failure::Timeout).message(),
        "UPnP(Gateway did not respond within the timeout)"
    );
    assert_eq!(
        ListenerFailure::Socket(socket_error(SocketErrorKind::Other)).message(),
        "Socket error: broken"
    );
    assert_eq!(
        ListenerFailure::EventingUnsupported.message(),
        "The service does not offer event subscriptions"
    );
    assert_eq!(
        ListenerFailure::CallbackUnreachable.message(),
        "The gateway accepted the event subscription, but its initial event never arrived"
    );
    assert_eq!(
        upnp::Failure::Socket(socket_error(SocketErrorKind::Other)).message(),
        "Socket error: broken"
    );
}

#[test]
fn requests_are_retried_with_doubled_timeouts() {
    let config = |max: Option<u64>| TimeoutConfig {
        initial_timeout: Duration::from_millis(250),
        max_retries: 3,
        max_retry_timeout: max.map(Duration::from_millis),
    };
    let same = |d: Duration| d;
    for (max, expected) in [(None, [250, 500, 1000, 2000]), (Some(700), [250, 500, 700, 700])] {
        let mut request = Request::new(config(max), &same);
        let mut waits = vec![request.wait];
        let result = loop {
            match request.try_send_until_response(Attempt::TimedOut, &same) {
                RetryStep::Retry => waits.push(request.wait),
                RetryStep::Done(result) => break result,
            }
        };
        assert!(matches!(result, Err(RequestSendError::Timeout)));
        assert_eq!(waits, expected.map(Duration::from_millis).to_vec());
    }

    // Fuzzing is applied after the maximum.
    let longer = |d: Duration| d.saturating_mul(3);
    let mut request = Request::new(config(Some(700)), &longer);
    assert_eq!(request.wait, Duration::from_millis(750));
    request.try_send_until_response(Attempt::TimedOut, &longer);
    assert_eq!(request.wait, Duration::from_millis(2100));

    assert!(matches!(
        request.try_send_until_response(Attempt::Received(12), &same),
        RetryStep::Done(Ok(12))
    ));
    assert!(matches!(
        request.try_send_until_response(
            Attempt::Failed(socket_error(SocketErrorKind::Other)),
            &same
        ),
        RetryStep::Done(Err(RequestSendError::Socket(_)))
    ));
}

#[test]
fn tcp_timeouts_cover_all_retries() {
    let config = |initial_timeout, max_retries| TimeoutConfig {
        initial_timeout,
        max_retries,
        max_retry_timeout: None,
    };
    assert_eq!(
        tcp_timeout(config(Duration::from_secs(2), 3)),
        Duration::from_secs(8)
    );
    assert_eq!(
        tcp_timeout(config(Duration::from_nanos(1).unwrap(), usize::MAX)),
        Duration::from_nanos(u128::from(u32::MAX)).unwrap()
    );
    assert_eq!(
        tcp_timeout(config(Duration::from_secs(u64::MAX), 1)).as_nanos(),
        MAX_DURATION_NANOS
    );
    assert_eq!(
        tcp_timeout(upnp::timeout_config_default()),
        Duration::from_secs(8)
    );
}

#[test]
fn durations() {
    assert!(Duration::from_nanos(MAX_DURATION_NANOS).is_some());
    assert!(Duration::from_nanos(MAX_DURATION_NANOS + 1).is_none());
    assert_eq!(Duration::from_millis(1999).as_nanos(), 1_999_000_000);
    assert_eq!(
        Duration::from_secs(3).checked_double(),
        Some(Duration::from_secs(6))
    );
    assert_eq!(Duration::from_secs(u64::MAX).checked_double(), None);
    assert!(Duration::from_secs(2).exceeds(&Duration::from_millis(1999)));
}

#[test]
fn socket_marks() {
    let mut mark = SocketMark::new();
    assert_eq!(fwmark(&mark), 0);
    assert_eq!(mark.to_apply(), None);
    set_fwmark(&mut mark, 42);
    assert_eq!(fwmark(&mark), 42);
    assert_eq!(mark.to_apply(), Some(42));
    set_fwmark(&mut mark, 0);
    assert_eq!(mark.to_apply(), None);
}

#[test]
fn socket_addresses() {
    let six = GatewayAddress::IpV6(Ipv6Addr { bits: 1 }, Some(3));
    assert_eq!(
        local_address(gateway()),
        SocketAddr::V4 {
            ip: v4(0, 0, 0, 0),
            port: 0
        }
    );
    assert_eq!(
        local_address(six),
        SocketAddr::V6 {
            ip: Ipv6Addr { bits: 0 },
            port: 0,
            scope_id: 0
        }
    );
    assert_eq!(
        announcement_address(gateway(), true),
        SocketAddr::V4 {
            ip: v4(224, 0, 0, 1),
            port: 5350
        }
    );
    assert_eq!(
        announcement_address(gateway(), false),
        SocketAddr::V4 {
            ip: v4(0, 0, 0, 0),
            port: 5350
        }
    );
    assert_eq!(announcement_address(six, true).port(), 5350);
    assert_eq!(
        announcement_group(gateway()),
        MulticastGroup::V4 {
            group: v4(224, 0, 0, 1)
        }
    );
    assert_eq!(
        announcement_group(six),
        MulticastGroup::V6 {
            group: Ipv6Addr {
                bits: 0xFF02_0000_0000_0000_0000_0000_0000_0001
            },
            interface: 3
        }
    );
}
