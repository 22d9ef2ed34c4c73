//! The order in which the mapping protocols are attempted for a new mapping.
//!
//! PCP is attempted first, falling back to NAT-PMP and then UPnP. The exchanges overlap: a probe
//! for a NAT-PMP responder and the discovery of UPnP run alongside the PCP attempt. A
//! `FallbackChain` takes their outcomes as they come, and says what to start next.

use vstd::prelude::*;

use crate::address::{GatewayAddress, IpAddr, Ipv4Addr, NonZeroU16};
use crate::failures::{FallbackFailure, MappingFailure, SocketError, SocketErrorKind};
use crate::mapping::PortMapping;
use crate::natpmp;
use crate::options;
use crate::options::{chain_pcp_timeout_config, PortMappingOptions};
use crate::pcp;
use crate::protocol::InternetProtocol;
use crate::upnp;
use crate::upnp::endpoint::ControlEndpoint;

verus! {

/// Whether a socket error indicates that nothing is listening on the port we sent a datagram to.
pub open spec fn is_port_closed(e: SocketError) -> bool {
    e.kind == SocketErrorKind::ConnectionRefused || e.kind == SocketErrorKind::ConnectionReset
}

/// Whether a socket error indicates that nothing is listening on the port we sent a datagram to.
/// The ICMP rejection is reported as `ConnectionRefused` on most platforms, but as
/// `ConnectionReset` on Windows.
pub fn is_port_closed_error(e: &SocketError) -> (closed: bool)
    ensures
        closed == is_port_closed(*e),
{
    match e.kind {
        SocketErrorKind::ConnectionRefused => true,
        SocketErrorKind::ConnectionReset => true,
        SocketErrorKind::Other => false,
    }
}

/// The protocol that should be attempted next after a PCP failure.
#[derive(Clone, Copy, Debug, PartialEq, Eq, Structural)]
pub enum PcpFallback {
    /// The failure describes a state shared by all mapping protocols; no fallback will help.
    Stop,

    /// The gateway recommended NAT-PMP, or the responder may only speak NAT-PMP correctly.
    NatPmp,

    /// NAT-PMP was ruled out along with PCP, but UPnP may still be available.
    Upnp,
}

/// The fallback protocol, if any, that may still succeed after the given PCP failure.
pub open spec fn fallback_after(failure: pcp::Failure) -> PcpFallback {
    match failure {
        pcp::Failure::UnsupportedVersion(_) => PcpFallback::NatPmp,
        pcp::Failure::InvalidResponse(_) => PcpFallback::NatPmp,
        pcp::Failure::Nonce => PcpFallback::NatPmp,
        pcp::Failure::MalformedRequest => PcpFallback::NatPmp,
        pcp::Failure::NotAuthorized(_) => PcpFallback::NatPmp,
        pcp::Failure::AddressMismatch => PcpFallback::NatPmp,
        pcp::Failure::Timeout => PcpFallback::Upnp,
        pcp::Failure::UnsupportedOpcode => PcpFallback::Upnp,
        pcp::Failure::UnsupportedOption => PcpFallback::Upnp,
        pcp::Failure::MalformedOption => PcpFallback::Upnp,
        pcp::Failure::UnsupportedProtocol => PcpFallback::Upnp,
        pcp::Failure::Socket(e) => if is_port_closed(e) {
            PcpFallback::Upnp
        } else {
            PcpFallback::Stop
        },
        pcp::Failure::NetworkFailure(_) => PcpFallback::Stop,
        pcp::Failure::NoResources(_) => PcpFallback::Stop,
        pcp::Failure::UserExceededQuota(_) => PcpFallback::Stop,
        pcp::Failure::CannotProvideExternal(_) => PcpFallback::Stop,
        pcp::Failure::ExcessiveRemotePeers => PcpFallback::Stop,
    }
}

/// Categorize which fallback protocol, if any, may still succeed after the given PCP failure.
/// Errors describing a state shared by all mapping protocols, e.g. the gateway lacking resources
/// for a new mapping or experiencing a network failure, do not benefit from a fallback.
pub fn pcp_failure_fallback(failure: &pcp::Failure) -> (fallback: PcpFallback)
    ensures
        fallback == fallback_after(*failure),
{
    match failure {
        // The gateway explicitly recommends a version downgrade, gave a response we could not
        // understand, or rejected the request itself. The responder may only speak NAT-PMP correctly.
        pcp::Failure::UnsupportedVersion(_) => PcpFallback::NatPmp,
        pcp::Failure::InvalidResponse(_) => PcpFallback::NatPmp,
        pcp::Failure::Nonce => PcpFallback::NatPmp,
        pcp::Failure::MalformedRequest => PcpFallback::NatPmp,
        pcp::Failure::NotAuthorized(_) => PcpFallback::NatPmp,

        // The client address we sent does not match the address the server saw, so no plain PCP
        // request can succeed. NAT-PMP requests carry no client address and always map the
        // address the gateway sees, so it cannot fail the same way.
        pcp::Failure::AddressMismatch => PcpFallback::NatPmp,

        // Nothing responded in time. NAT-PMP servers are required to answer requests with an
        // unknown version using an "unsupported version" error (<https://www.rfc-editor.org/rfc/rfc6886#section-3.5>),
        // and PCP relies on that reply for downgrades (<https://www.rfc-editor.org/rfc/rfc6887#section-9>),
        // so a silent gateway is assumed not to speak NAT-PMP either.
        pcp::Failure::Timeout => PcpFallback::Upnp,

        // The gateway speaks well-formed PCP but cannot serve this request; it would have
        // recommended NAT-PMP with an unsupported version response if it preferred it.
        pcp::Failure::UnsupportedOpcode => PcpFallback::Upnp,
        pcp::Failure::UnsupportedOption => PcpFallback::Upnp,
        pcp::Failure::MalformedOption => PcpFallback::Upnp,
        pcp::Failure::UnsupportedProtocol => PcpFallback::Upnp,

        // A rejection indicates that the gateway does not listen on the port NAT-PMP and PCP
        // share. Other socket errors are local or environmental and would affect any protocol.
        pcp::Failure::Socket(e) => {
            if is_port_closed_error(e) {
                PcpFallback::Upnp
            } else {
                PcpFallback::Stop
            }
        },

        // The gateway state or the request itself would cause any mapping protocol to fail.
        pcp::Failure::NetworkFailure(_) => PcpFallback::Stop,
        pcp::Failure::NoResources(_) => PcpFallback::Stop,
        pcp::Failure::UserExceededQuota(_) => PcpFallback::Stop,
        pcp::Failure::CannotProvideExternal(_) => PcpFallback::Stop,
        pcp::Failure::ExcessiveRemotePeers => PcpFallback::Stop,
    }
}

/// Whether a NAT-PMP failure is specific to the NAT-PMP protocol.
pub open spec fn is_natpmp_specific(failure: natpmp::Failure) -> bool {
    match failure {
        natpmp::Failure::Timeout => true,
        natpmp::Failure::InvalidResponse(_) => true,
        natpmp::Failure::UnsupportedVersion(_) => true,
        natpmp::Failure::NotAuthorized => true,
        natpmp::Failure::UnsupportedOpcode => true,
        natpmp::Failure::Socket(e) => is_port_closed(e),
        natpmp::Failure::NetworkFailure => false,
        natpmp::Failure::OutOfResources => false,
    }
}

/// Whether a NAT-PMP failure is specific to the NAT-PMP protocol, meaning a fallback protocol may still succeed.
/// See `pcp_failure_fallback` for the reasoning behind the categorization.
pub fn natpmp_failure_is_protocol_specific(failure: &natpmp::Failure) -> (specific: bool)
    ensures
        specific == is_natpmp_specific(*failure),
{
    match failure {
        // Nothing intelligible is answering NAT-PMP requests, or the server refused to process ours.
        natpmp::Failure::Timeout => true,
        natpmp::Failure::InvalidResponse(_) => true,
        natpmp::Failure::UnsupportedVersion(_) => true,
        natpmp::Failure::NotAuthorized => true,
        natpmp::Failure::UnsupportedOpcode => true,

        // A rejection indicates that the gateway does not listen on the NAT-PMP port at all.
        // Other socket errors are local or environmental and would affect any protocol.
        natpmp::Failure::Socket(e) => is_port_closed_error(e),

        // The gateway state would cause any mapping protocol to fail.
        natpmp::Failure::NetworkFailure => false,
        natpmp::Failure::OutOfResources => false,
    }
}

/// What a chain is waiting for before anything further can be decided.
#[derive(Clone, Copy, Debug, PartialEq, Eq, Structural)]
pub enum ChainStage {
    /// The outcome of the PCP attempt.
    Pcp,

    /// The outcome of the probe for a NAT-PMP responder, after PCP failed.
    Probe {
        /// Whether NAT-PMP is attempted even if the probe failed.
        always: bool,
        /// The "retry after" estimate reported by the PCP server.
        retry_after_seconds: Option<u32>,
    },

    /// The outcome of the NAT-PMP attempt.
    NatPmp {
        /// The "retry after" estimate reported by the PCP server.
        retry_after_seconds: Option<u32>,
    },

    /// The outcome of the UPnP discovery, after the earlier protocols were ruled out.
    Discovery {
        /// The "retry after" estimate reported by the PCP server.
        retry_after_seconds: Option<u32>,
    },

    /// The outcome of the UPnP attempt.
    Upnp {
        /// The "retry after" estimate reported by the PCP server.
        retry_after_seconds: Option<u32>,
    },

    /// Nothing; the chain is over.
    Finished,
}

/// The outcome of one of the exchanges that a chain is made of.
#[derive(Debug)]
pub enum ChainEvent {
    /// The stateless probe for a NAT-PMP responder, which asks for the external address.
    Probed(Result<Ipv4Addr, natpmp::Failure>),

    /// The PCP attempt.
    Pcp(Result<PortMapping, pcp::Failure>),

    /// The NAT-PMP attempt.
    NatPmp(Result<PortMapping, natpmp::Failure>),

    /// The UPnP discovery, which creates no state on the gateway.
    Discovered(Result<ControlEndpoint, upnp::Failure>),

    /// The UPnP attempt.
    Upnp(Result<PortMapping, upnp::Failure>),
}

/// What a chain needs to be done.
#[derive(Debug)]
pub enum ChainAction {
    /// Wait for the outcome of an exchange that was started.
    Wait,

    /// Attempt a NAT-PMP mapping. The outcome of the probe stands in for the external address
    /// request that the attempt would otherwise repeat.
    MapNatPmp {
        /// The external address of the gateway.
        external_ip: Ipv4Addr,
    },

    /// Attempt a UPnP mapping through the endpoint.
    MapUpnp(ControlEndpoint),

    /// Abandon what is still running; this is the result.
    Done(Result<PortMapping, FallbackFailure>),
}

/// The outcomes that the exchanges of a chain have, or would have if they were made.
pub struct Outcomes {
    pub probe: Result<Ipv4Addr, natpmp::Failure>,
    pub pcp: Result<PortMapping, pcp::Failure>,
    pub natpmp: Result<PortMapping, natpmp::Failure>,
    pub discovery: Result<ControlEndpoint, upnp::Failure>,
    pub upnp: Result<PortMapping, upnp::Failure>,
}

/// The failure of a chain at one of its protocols.
pub open spec fn chain_failure(failure: MappingFailure, retry_after_seconds: Option<u32>) -> Result<
    PortMapping,
    FallbackFailure,
> {
    Err(FallbackFailure { failure, retry_after_seconds })
}

/// The result of falling back to UPnP.
pub open spec fn upnp_result(outcomes: Outcomes, retry_after_seconds: Option<u32>) -> Result<
    PortMapping,
    FallbackFailure,
> {
    match outcomes.discovery {
        Ok(_) => match outcomes.upnp {
            Ok(mapping) => Ok(mapping),
            Err(e) => chain_failure(MappingFailure::Upnp(e), retry_after_seconds),
        },
        Err(e) => chain_failure(MappingFailure::Upnp(e), retry_after_seconds),
    }
}

/// The result of a NAT-PMP failure: UPnP is fallen back to if it is specific to NAT-PMP.
pub open spec fn natpmp_failure_result(
    outcomes: Outcomes,
    failure: natpmp::Failure,
    retry_after_seconds: Option<u32>,
) -> Result<PortMapping, FallbackFailure> {
    if is_natpmp_specific(failure) {
        upnp_result(outcomes, retry_after_seconds)
    } else {
        chain_failure(MappingFailure::NatPmp(failure), retry_after_seconds)
    }
}

/// The result of falling back to NAT-PMP. It is attempted if the probe found a responder. If the
/// probe did not, its failure stands for that of the attempt where NAT-PMP is attempted in any
/// case, and UPnP is fallen back to otherwise.
pub open spec fn natpmp_result(
    outcomes: Outcomes,
    always: bool,
    retry_after_seconds: Option<u32>,
) -> Result<PortMapping, FallbackFailure> {
    match outcomes.probe {
        Ok(_) => match outcomes.natpmp {
            Ok(mapping) => Ok(mapping),
            Err(e) => natpmp_failure_result(outcomes, e, retry_after_seconds),
        },
        Err(e) => if always {
            natpmp_failure_result(outcomes, e, retry_after_seconds)
        } else {
            upnp_result(outcomes, retry_after_seconds)
        },
    }
}

/// The result of a chain whose exchanges have the given outcomes.
pub open spec fn chain_result(outcomes: Outcomes) -> Result<PortMapping, FallbackFailure> {
    match outcomes.pcp {
        Ok(mapping) => Ok(mapping),
        Err(e) => match fallback_after(e) {
            PcpFallback::Stop => chain_failure(
                MappingFailure::Pcp(e),
                e.spec_retry_after_seconds(),
            ),
            PcpFallback::NatPmp => natpmp_result(outcomes, true, e.spec_retry_after_seconds()),
            PcpFallback::Upnp => natpmp_result(outcomes, false, e.spec_retry_after_seconds()),
        },
    }
}

/// The parameters of a new mapping.
#[derive(Clone, Copy, Debug)]
pub struct NewMapping {
    /// The address of the gateway.
    pub gateway: GatewayAddress,

    /// Our address as seen by the gateway.
    pub client: IpAddr,

    /// The protocol to map a port for.
    pub protocol: InternetProtocol,

    /// The internal port to map.
    pub internal_port: NonZeroU16,

    /// Optional configuration values.
    pub mapping_options: PortMappingOptions,
}

/// A new mapping being attempted with one protocol after another.
#[derive(Debug)]
pub struct FallbackChain {
    /// The parameters of the mapping.
    pub request: NewMapping,

    /// The outcome of the probe, until it is needed.
    pub probed: Option<Result<Ipv4Addr, natpmp::Failure>>,

    /// The outcome of the discovery, until it is needed.
    pub discovered: Option<Result<ControlEndpoint, upnp::Failure>>,

    /// What the chain is waiting for.
    pub stage: ChainStage,
}

impl PortMapping {
    /// Attempts to map a port on the gateway using PCP first, falling back to NAT-PMP and then UPnP.
    /// Will request to use the given external port if specified, otherwise it will let the gateway choose.
    /// If no lifetime is specified, the NAT-PMP recommended lifetime of two hours will be used.
    /// The chain begins with the PCP attempt, the probe for a NAT-PMP responder and the discovery
    /// of UPnP, all of which are to be started at once.
    /// # Notes
    /// NAT-PMP is attempted when the PCP server recommends it with an unsupported version response,
    /// as well as when the PCP exchange suggests the responder may only speak NAT-PMP correctly:
    /// an invalid response, or a rejection of the request as malformed, unauthorized, or mismatched.
    /// When PCP goes unanswered entirely, NAT-PMP is attempted only if a stateless probe made
    /// concurrently with the PCP request demonstrated a NAT-PMP responder on the gateway.
    /// UPnP is attempted when the earlier protocols are ruled out as above, or when an attempted
    /// NAT-PMP fallback fails with an error specific to that protocol.
    /// Failures describing a state shared by all mapping protocols, such as the gateway lacking resources
    /// or a network failure, are returned without attempting further protocols.
    pub fn new(
        gateway: GatewayAddress,
        client: IpAddr,
        protocol: InternetProtocol,
        internal_port: NonZeroU16,
        mapping_options: PortMappingOptions,
    ) -> (chain: FallbackChain)
        ensures
            chain.request == (NewMapping {
                gateway,
                client,
                protocol,
                internal_port,
                mapping_options,
            }),
            chain.probed is None,
            chain.discovered is None,
            chain.stage == ChainStage::Pcp,
            forall|outcomes: Outcomes| #[trigger] chain.agrees_with(outcomes),
    {
        FallbackChain {
            request: NewMapping { gateway, client, protocol, internal_port, mapping_options },
            probed: None,
            discovered: None,
            stage: ChainStage::Pcp,
        }
    }
}

impl FallbackChain {
    /// The options of the PCP attempt. Without an explicit `timeout_config`, it uses a shorter
    /// initial timeout than PCP would by itself, since gateways respond within milliseconds and
    /// the chain has fallback protocols left to attempt.
    pub fn pcp_options(&self) -> (options: PortMappingOptions)
        ensures
            options == (PortMappingOptions {
                timeout_config: Some(
                    match self.request.mapping_options.timeout_config {
                        Some(config) => config,
                        None => options::spec_chain_pcp_timeout_config(),
                    },
                ),
                ..self.request.mapping_options
            }),
    {
        PortMappingOptions {
            external_port: self.request.mapping_options.external_port,
            lifetime_seconds: self.request.mapping_options.lifetime_seconds,
            timeout_config: Some(
                match self.request.mapping_options.timeout_config {
                    Some(config) => config,
                    None => chain_pcp_timeout_config(),
                },
            ),
        }
    }

    /// The end of the chain.
    pub open spec fn ended(self, result: Result<PortMapping, FallbackFailure>) -> (
        FallbackChain,
        ChainAction,
    ) {
        (FallbackChain { stage: ChainStage::Finished, ..self }, ChainAction::Done(result))
    }

    /// The UPnP attempt, given the outcome of the discovery.
    pub open spec fn with_discovery(
        self,
        discovery: Result<ControlEndpoint, upnp::Failure>,
        retry_after_seconds: Option<u32>,
    ) -> (FallbackChain, ChainAction) {
        match discovery {
            Ok(endpoint) => (
                FallbackChain { stage: ChainStage::Upnp { retry_after_seconds }, ..self },
                ChainAction::MapUpnp(endpoint),
            ),
            Err(e) => self.ended(chain_failure(MappingFailure::Upnp(e), retry_after_seconds)),
        }
    }

    /// Falling back to UPnP.
    pub open spec fn to_upnp(self, retry_after_seconds: Option<u32>) -> (
        FallbackChain,
        ChainAction,
    ) {
        match self.discovered {
            Some(discovery) => FallbackChain { discovered: None, ..self }.with_discovery(
                discovery,
                retry_after_seconds,
            ),
            None => (
                FallbackChain { stage: ChainStage::Discovery { retry_after_seconds }, ..self },
                ChainAction::Wait,
            ),
        }
    }

    /// What follows a NAT-PMP failure.
    pub open spec fn after_natpmp_failure(
        self,
        failure: natpmp::Failure,
        retry_after_seconds: Option<u32>,
    ) -> (FallbackChain, ChainAction) {
        if is_natpmp_specific(failure) {
            self.to_upnp(retry_after_seconds)
        } else {
            self.ended(chain_failure(MappingFailure::NatPmp(failure), retry_after_seconds))
        }
    }

    /// The NAT-PMP attempt, given the outcome of the probe.
    pub open spec fn with_probe(
        self,
        probe: Result<Ipv4Addr, natpmp::Failure>,
        always: bool,
        retry_after_seconds: Option<u32>,
    ) -> (FallbackChain, ChainAction) {
        match probe {
            Ok(external_ip) => (
                FallbackChain { stage: ChainStage::NatPmp { retry_after_seconds }, ..self },
                ChainAction::MapNatPmp { external_ip },
            ),
            Err(e) => if always {
                self.after_natpmp_failure(e, retry_after_seconds)
            } else {
                self.to_upnp(retry_after_seconds)
            },
        }
    }

    /// Falling back to NAT-PMP.
    pub open spec fn to_natpmp(self, always: bool, retry_after_seconds: Option<u32>) -> (
        FallbackChain,
        ChainAction,
    ) {
        match self.probed {
            Some(probe) => FallbackChain { probed: None, ..self }.with_probe(
                probe,
                always,
                retry_after_seconds,
            ),
            None => (
                FallbackChain { stage: ChainStage::Probe { always, retry_after_seconds }, ..self },
                ChainAction::Wait,
            ),
        }
    }

    /// Whether the chain can still make use of an outcome.
    pub open spec fn expects(self, event: ChainEvent) -> bool {
        match event {
            ChainEvent::Probed(_) => self.probed is None && (self.stage is Pcp || self.stage is Probe),
            ChainEvent::Pcp(_) => self.stage is Pcp,
            ChainEvent::NatPmp(_) => self.stage is NatPmp,
            ChainEvent::Discovered(_) => self.discovered is None && !(self.stage is Upnp)
                && !(self.stage is Finished),
            ChainEvent::Upnp(_) => self.stage is Upnp,
        }
    }

    /// The chain after an outcome, and what to do next.
    pub open spec fn next(self, event: ChainEvent) -> (FallbackChain, ChainAction) {
        match event {
            ChainEvent::Probed(probe) => match self.stage {
                ChainStage::Probe { always, retry_after_seconds } => self.with_probe(
                    probe,
                    always,
                    retry_after_seconds,
                ),
                _ => (FallbackChain { probed: Some(probe), ..self }, ChainAction::Wait),
            },
            ChainEvent::Pcp(Ok(mapping)) => self.ended(Ok(mapping)),
            ChainEvent::Pcp(Err(e)) => match fallback_after(e) {
                PcpFallback::Stop => self.ended(
                    chain_failure(MappingFailure::Pcp(e), e.spec_retry_after_seconds()),
                ),
                PcpFallback::NatPmp => self.to_natpmp(true, e.spec_retry_after_seconds()),
                PcpFallback::Upnp => self.to_natpmp(false, e.spec_retry_after_seconds()),
            },
            ChainEvent::NatPmp(Ok(mapping)) => self.ended(Ok(mapping)),
            ChainEvent::NatPmp(Err(e)) => match self.stage {
                ChainStage::NatPmp { retry_after_seconds } => self.after_natpmp_failure(
                    e,
                    retry_after_seconds,
                ),
                _ => (self, ChainAction::Wait),
            },
            ChainEvent::Discovered(discovery) => match self.stage {
                ChainStage::Discovery { retry_after_seconds } => self.with_discovery(
                    discovery,
                    retry_after_seconds,
                ),
                _ => (FallbackChain { discovered: Some(discovery), ..self }, ChainAction::Wait),
            },
            ChainEvent::Upnp(Ok(mapping)) => self.ended(Ok(mapping)),
            ChainEvent::Upnp(Err(e)) => match self.stage {
                ChainStage::Upnp { retry_after_seconds } => self.ended(
                    chain_failure(MappingFailure::Upnp(e), retry_after_seconds),
                ),
                _ => (self, ChainAction::Wait),
            },
        }
    }

    /// Ends the chain.
    fn end(&mut self, result: Result<PortMapping, FallbackFailure>) -> (action: ChainAction)
        ensures
            (*final(self), action) == old(self).ended(result),
    {
        self.stage = ChainStage::Finished;
        ChainAction::Done(result)
    }

    /// Attempts UPnP with the outcome of the discovery.
    fn use_discovery(
        &mut self,
        discovery: Result<ControlEndpoint, upnp::Failure>,
        retry_after_seconds: Option<u32>,
    ) -> (action: ChainAction)
        ensures
            (*final(self), action) == old(self).with_discovery(discovery, retry_after_seconds),
    {
        match discovery {
            Ok(endpoint) => {
                self.stage = ChainStage::Upnp { retry_after_seconds };
                ChainAction::MapUpnp(endpoint)
            },
            Err(e) => self.end(
                Err(FallbackFailure { failure: MappingFailure::from(e), retry_after_seconds }),
            ),
        }
    }

    /// Falls back to UPnP, which is often available on gateways that have PCP and NAT-PMP
    /// disabled. UPnP servers do not give "retry after" estimates; any reported by the earlier
    /// protocols are kept.
    fn fall_back_to_upnp(&mut self, retry_after_seconds: Option<u32>) -> (action: ChainAction)
        ensures
            (*final(self), action) == old(self).to_upnp(retry_after_seconds),
    {
        match self.discovered.take() {
            Some(discovery) => self.use_discovery(discovery, retry_after_seconds),
            None => {
                self.stage = ChainStage::Discovery { retry_after_seconds };
                ChainAction::Wait
            },
        }
    }

    /// Falls through to UPnP for failures specific to the NAT-PMP protocol.
    fn take_natpmp_failure(
        &mut self,
        failure: natpmp::Failure,
        retry_after_seconds: Option<u32>,
    ) -> (action: ChainAction)
        ensures
            (*final(self), action) == old(self).after_natpmp_failure(failure, retry_after_seconds),
    {
        if natpmp_failure_is_protocol_specific(&failure) {
            self.fall_back_to_upnp(retry_after_seconds)
        } else {
            self.end(
                Err(
                    FallbackFailure {
                        failure: MappingFailure::from(failure),
                        retry_after_seconds,
                    },
                ),
            )
        }
    }

    /// Attempts NAT-PMP with the outcome of the probe.
    fn use_probe(
        &mut self,
        probe: Result<Ipv4Addr, natpmp::Failure>,
        always: bool,
        retry_after_seconds: Option<u32>,
    ) -> (action: ChainAction)
        ensures
            (*final(self), action) == old(self).with_probe(probe, always, retry_after_seconds),
    {
        match probe {
            Ok(external_ip) => {
                self.stage = ChainStage::NatPmp { retry_after_seconds };
                ChainAction::MapNatPmp { external_ip }
            },
            Err(e) => {
                if always {
                    self.take_natpmp_failure(e, retry_after_seconds)
                } else {
                    self.fall_back_to_upnp(retry_after_seconds)
                }
            },
        }
    }

    /// Falls back to the older, possibly more widely supported, NAT-PMP.
    fn fall_back_to_natpmp(&mut self, always: bool, retry_after_seconds: Option<u32>) -> (action:
        ChainAction)
        ensures
            (*final(self), action) == old(self).to_natpmp(always, retry_after_seconds),
    {
        match self.probed.take() {
            Some(probe) => self.use_probe(probe, always, retry_after_seconds),
            None => {
                self.stage = ChainStage::Probe { always, retry_after_seconds };
                ChainAction::Wait
            },
        }
    }

    /// Takes the outcome of one of the exchanges, and says what to do next.
    pub fn step(&mut self, event: ChainEvent) -> (action: ChainAction)
        requires
            old(self).expects(event),
        ensures
            (*final(self), action) == old(self).next(event),
    {
        match event {
            ChainEvent::Probed(probe) => match self.stage {
                ChainStage::Probe { always, retry_after_seconds } => self.use_probe(
                    probe,
                    always,
                    retry_after_seconds,
                ),
                _ => {
                    self.probed = Some(probe);
                    ChainAction::Wait
                },
            },
            ChainEvent::Pcp(Ok(mapping)) => self.end(Ok(mapping)),
            ChainEvent::Pcp(Err(e)) => {
                // Keep the "retry after" estimate reported by the PCP server, if any, for the returned failure.
                let retry_after_seconds: Option<u32> = e.retry_after_seconds();
                match pcp_failure_fallback(&e) {
                    // Return errors describing a state shared by all mapping protocols.
                    PcpFallback::Stop => self.end(
                        Err(
                            FallbackFailure {
                                failure: MappingFailure::from(e),
                                retry_after_seconds,
                            },
                        ),
                    ),

                    // The gateway asks for, or may only speak, NAT-PMP; always attempt it.
                    PcpFallback::NatPmp => self.fall_back_to_natpmp(true, retry_after_seconds),

                    // The gateway did not answer PCP usefully; only attempt NAT-PMP if the
                    // concurrent probe demonstrated a responder.
                    PcpFallback::Upnp => self.fall_back_to_natpmp(false, retry_after_seconds),
                }
            },
            ChainEvent::NatPmp(Ok(mapping)) => self.end(Ok(mapping)),
            ChainEvent::NatPmp(Err(e)) => match self.stage {
                ChainStage::NatPmp { retry_after_seconds } => self.take_natpmp_failure(
                    e,
                    retry_after_seconds,
                ),
                _ => ChainAction::Wait,
            },
            ChainEvent::Discovered(discovery) => match self.stage {
                ChainStage::Discovery { retry_after_seconds } => self.use_discovery(
                    discovery,
                    retry_after_seconds,
                ),
                _ => {
                    self.discovered = Some(discovery);
                    ChainAction::Wait
                },
            },
            ChainEvent::Upnp(Ok(mapping)) => self.end(Ok(mapping)),
            ChainEvent::Upnp(Err(e)) => match self.stage {
                ChainStage::Upnp { retry_after_seconds } => self.end(
                    Err(FallbackFailure { failure: MappingFailure::from(e), retry_after_seconds }),
                ),
                _ => ChainAction::Wait,
            },
        }
    }

    /// Whether what the chain has seen so far agrees with outcomes of its exchanges.
    pub open spec fn agrees_with(self, outcomes: Outcomes) -> bool {
        &&& self.probed matches Some(probe) ==> probe == outcomes.probe
        &&& self.discovered matches Some(discovery) ==> discovery == outcomes.discovery
        &&& match self.stage {
            ChainStage::Pcp => true,
            ChainStage::Probe { always, retry_after_seconds } => self.probed is None
                && chain_result(outcomes) == natpmp_result(outcomes, always, retry_after_seconds),
            ChainStage::NatPmp { retry_after_seconds } => chain_result(outcomes) == (
            match outcomes.natpmp {
                Ok(mapping) => Ok(mapping),
                Err(e) => natpmp_failure_result(outcomes, e, retry_after_seconds),
            }),
            ChainStage::Discovery { retry_after_seconds } => self.discovered is None
                && chain_result(outcomes) == upnp_result(outcomes, retry_after_seconds),
            ChainStage::Upnp { retry_after_seconds } => outcomes.discovery is Ok && chain_result(
                outcomes,
            ) == upnp_result(outcomes, retry_after_seconds),
            ChainStage::Finished => true,
        }
    }
}

/// Whether an event is one of the outcomes.
pub open spec fn is_outcome(event: ChainEvent, outcomes: Outcomes) -> bool {
    match event {
        ChainEvent::Probed(probe) => probe == outcomes.probe,
        ChainEvent::Pcp(pcp) => pcp == outcomes.pcp,
        ChainEvent::NatPmp(natpmp) => natpmp == outcomes.natpmp,
        ChainEvent::Discovered(discovery) => discovery == outcomes.discovery,
        ChainEvent::Upnp(upnp) => upnp == outcomes.upnp,
    }
}

/// The result of a chain depends on the outcomes of its exchanges alone, and not on the order in
/// which they arrive: whichever comes next, the chain stays in agreement with them, and when it
/// is done its result is theirs.
pub proof fn law_result_is_independent_of_order(
    chain: FallbackChain,
    event: ChainEvent,
    outcomes: Outcomes,
)
    requires
        chain.agrees_with(outcomes),
        chain.expects(event),
        is_outcome(event, outcomes),
    ensures
        ({
            let (after, action) = chain.next(event);
            &&& after.agrees_with(outcomes)
            &&& action matches ChainAction::Done(result) ==> result == chain_result(outcomes)
            &&& action is Done <==> after.stage is Finished
        }),
{
}

/// A failure of PCP that describes a state shared by all mapping protocols ends the chain without
/// an attempt of another.
pub proof fn law_shared_failures_end_the_chain(chain: FallbackChain, failure: pcp::Failure)
    requires
        chain.stage is Pcp,
        fallback_after(failure) == PcpFallback::Stop,
    ensures
        chain.next(ChainEvent::Pcp(Err(failure))).1 == ChainAction::Done(
            Err(
                FallbackFailure {
                    failure: MappingFailure::Pcp(failure),
                    retry_after_seconds: failure.spec_retry_after_seconds(),
                },
            ),
        ),
{
}

/// A NAT-PMP mapping is attempted only if the probe found a responder.
pub proof fn law_natpmp_needs_a_responder(chain: FallbackChain, event: ChainEvent)
    requires
        chain.expects(event),
        chain.next(event).1 is MapNatPmp,
    ensures
        match event {
            ChainEvent::Probed(probe) => probe is Ok,
            ChainEvent::Pcp(_) => chain.probed matches Some(Ok(_)),
            _ => false,
        },
{
}

impl FallbackChain {
    /// The most outcomes that the chain still takes.
    pub open spec fn outcomes_left(self) -> nat {
        let attempts: nat = match self.stage {
            ChainStage::Pcp => 3,
            ChainStage::Probe { .. } => 2,
            ChainStage::NatPmp { .. } => 2,
            ChainStage::Discovery { .. } => 1,
            ChainStage::Upnp { .. } => 1,
            ChainStage::Finished => 0,
        };
        let probe: nat = if self.probed is None && (self.stage is Pcp || self.stage is Probe) {
            1
        } else {
            0
        };
        let discovery: nat = if self.discovered is None && !(self.stage is Upnp)
            && !(self.stage is Finished) {
            1
        } else {
            0
        };
        attempts + probe + discovery
    }
}

/// A chain comes to an end: every outcome it takes leaves fewer for it to take, of which there
/// are never more than five.
pub proof fn law_chain_ends(chain: FallbackChain, event: ChainEvent)
    requires
        chain.expects(event),
    ensures
        chain.next(event).0.outcomes_left() < chain.outcomes_left() <= 5,
        chain.next(event).0.outcomes_left() == 0 <==> chain.next(event).1 is Done,
{
}

/// A gateway that recommends another version, answers what cannot be understood, or rejects the
/// request itself may speak NAT-PMP. One that does not answer, does not listen, or cannot serve the
/// request leaves UPnP. A state that all mapping protocols share, and a socket that fails in any
/// other way, leave nothing.
pub proof fn law_pcp_failures_are_told_apart(failure: pcp::Failure)
    ensures
        fallback_after(failure) == PcpFallback::NatPmp <==> failure is UnsupportedVersion
            || failure is InvalidResponse || failure is Nonce || failure is MalformedRequest
            || failure is NotAuthorized || failure is AddressMismatch,
        fallback_after(failure) == PcpFallback::Stop <==> failure is NetworkFailure
            || failure is NoResources || failure is UserExceededQuota
            || failure is CannotProvideExternal || failure is ExcessiveRemotePeers || (
        failure matches pcp::Failure::Socket(e) && e.kind is Other),
{
}

/// A NAT-PMP failure leaves UPnP, unless it describes a state that all mapping protocols share, or
/// a socket that failed in another way than by nothing listening.
pub proof fn law_natpmp_failures_are_told_apart(failure: natpmp::Failure)
    ensures
        !is_natpmp_specific(failure) <==> failure is NetworkFailure || failure is OutOfResources || (
        failure matches natpmp::Failure::Socket(e) && e.kind is Other),
{
}

/// The result of a chain is the first mapping that an attempt made in the order PCP, NAT-PMP, UPnP,
/// as long as the failures before it leave that protocol to attempt. NAT-PMP is attempted where the
/// probe found a responder.
pub proof fn law_first_mapping_is_the_result(outcomes: Outcomes)
    ensures
        outcomes.pcp matches Ok(mapping) ==> chain_result(outcomes) == Ok::<_, FallbackFailure>(
            mapping,
        ),
        outcomes.pcp matches Err(e) ==> fallback_after(e) != PcpFallback::Stop && outcomes.probe is Ok
            && outcomes.natpmp is Ok ==> chain_result(outcomes) == Ok::<_, FallbackFailure>(
            outcomes.natpmp->Ok_0,
        ),
        outcomes.pcp matches Err(e) ==> (fallback_after(e) == PcpFallback::Upnp && outcomes.probe is Err
            && outcomes.discovery is Ok && outcomes.upnp is Ok ==> chain_result(outcomes) == Ok::<
            _,
            FallbackFailure,
        >(outcomes.upnp->Ok_0)),
        outcomes.pcp matches Err(e) ==> (fallback_after(e) != PcpFallback::Stop && outcomes.probe is Ok
            && (outcomes.natpmp matches Err(f) && is_natpmp_specific(f)) && outcomes.discovery is Ok
            && outcomes.upnp is Ok ==> chain_result(outcomes) == Ok::<_, FallbackFailure>(
            outcomes.upnp->Ok_0,
        )),
        outcomes.pcp matches Err(e) ==> (fallback_after(e) == PcpFallback::NatPmp && (
        outcomes.probe matches Err(f) && is_natpmp_specific(f)) && outcomes.discovery is Ok
            && outcomes.upnp is Ok ==> chain_result(outcomes) == Ok::<_, FallbackFailure>(
            outcomes.upnp->Ok_0,
        )),
{
}

/// The failure of a chain is that of the last protocol attempted, with the time that the PCP server
/// estimated its error to persist.
pub proof fn law_last_protocol_is_blamed(outcomes: Outcomes)
    requires
        chain_result(outcomes) is Err,
    ensures
        ({
            let failed = chain_result(outcomes)->Err_0;
            &&& outcomes.pcp matches Err(e) && {
                &&& failed.retry_after_seconds == (match e {
                    pcp::Failure::NotAuthorized(seconds) => Some(seconds),
                    pcp::Failure::NetworkFailure(seconds) => Some(seconds),
                    pcp::Failure::NoResources(seconds) => Some(seconds),
                    pcp::Failure::UserExceededQuota(seconds) => Some(seconds),
                    pcp::Failure::CannotProvideExternal(seconds) => Some(seconds),
                    _ => None,
                })
                &&& fallback_after(e) == PcpFallback::Stop <==> failed.failure is Pcp
                &&& failed.failure matches MappingFailure::Pcp(f) ==> f == e
            }
            &&& failed.failure matches MappingFailure::NatPmp(f) ==> {
                &&& !is_natpmp_specific(f)
                &&& outcomes.probe == Err::<Ipv4Addr, _>(f) || (outcomes.probe is Ok
                    && outcomes.natpmp == Err::<PortMapping, _>(f))
            }
            &&& failed.failure matches MappingFailure::Upnp(f) ==> outcomes.discovery == Err::<
                ControlEndpoint,
                _,
            >(f) || (outcomes.discovery is Ok && outcomes.upnp == Err::<PortMapping, _>(f))
        }),
{
}

/// What is attempted is attempted with what was found: a NAT-PMP mapping with the address that the
/// probe gave, and a UPnP mapping with the endpoint that was discovered.
pub proof fn law_attempts_use_what_was_found(chain: FallbackChain, event: ChainEvent)
    requires
        chain.expects(event),
    ensures
        chain.next(event).1 matches ChainAction::MapNatPmp { external_ip } ==> event
            == ChainEvent::Probed(Ok(external_ip)) || chain.probed == Some(
            Ok::<_, natpmp::Failure>(external_ip),
        ),
        chain.next(event).1 matches ChainAction::MapUpnp(endpoint) ==> event
            == ChainEvent::Discovered(Ok(endpoint)) || chain.discovered == Some(
            Ok::<_, upnp::Failure>(endpoint),
        ),
        chain.next(event).0.request == chain.request,
{
}

} // verus!
