//! Port mappings on a gateway.

use vstd::prelude::*;

use crate::address::{GatewayAddress, IpAddr, NonZeroU16};
use crate::failures::MappingFailure;
use crate::options::{PortMappingOptions, TimeoutConfig};
use crate::pcp;
use crate::protocol::InternetProtocol;
use crate::time::{Duration, Instant, NANOS_PER_SECOND};
use crate::upnp;
use crate::upnp::endpoint::ControlEndpoint;

verus! {

/// Specifies a port mapping protocol, as well as any protocol specific parameters.
#[derive(Debug)]
pub enum PortMappingType {
    /// NAT-PMP
    NatPmp,

    /// PCP
    Pcp {
        /// Our address as seen by the PCP server.
        client: IpAddr,

        /// The nonce used to identify this session with the PCP server.
        /// A unique nonce may be used for each mapping, see <https://www.rfc-editor.org/rfc/rfc6887#page-44>.
        nonce: pcp::Nonce,
    },

    /// UPnP
    Upnp {
        /// Our address as seen by the gateway. Used as the internal client address of the mapping.
        client: IpAddr,

        /// The endpoint discovered on the gateway which is used to manage the mapping.
        endpoint: ControlEndpoint,
    },
}

impl Clone for PortMappingType {
    fn clone(&self) -> (copy: Self)
        ensures
            copy == *self,
    {
        match self {
            PortMappingType::NatPmp => PortMappingType::NatPmp,
            PortMappingType::Pcp { client, nonce } => PortMappingType::Pcp {
                client: *client,
                nonce: *nonce,
            },
            PortMappingType::Upnp { client, endpoint } => PortMappingType::Upnp {
                client: *client,
                endpoint: endpoint.clone(),
            },
        }
    }
}

impl PortMappingType {
    /// The name of the protocol.
    pub fn text(&self) -> (text: &'static str)
        ensures
            text@ == (match self {
                PortMappingType::NatPmp => "NAT-PMP"@,
                PortMappingType::Pcp { .. } => "PCP"@,
                PortMappingType::Upnp { .. } => "UPnP"@,
            }),
    {
        match self {
            PortMappingType::NatPmp => "NAT-PMP",
            PortMappingType::Pcp { .. } => "PCP",
            PortMappingType::Upnp { .. } => "UPnP",
        }
    }
}

/// A port mapping on the gateway. Should be renewed with `.renew()` and deleted from the gateway with `.try_drop()`.
#[derive(Debug)]
pub struct PortMapping {
    /// The address of the gateway the mapping is registered with.
    gateway: GatewayAddress,

    /// The protocol the mapping is for.
    protocol: InternetProtocol,

    /// The internal/local port of the port mapping.
    internal_port: NonZeroU16,

    /// The external port of the port mapping.
    external_port: NonZeroU16,

    /// The external IP address of the port mapping.
    external_ip: IpAddr,

    /// The lifetime of the port mapping in seconds.
    lifetime_seconds: u32,

    /// The datetime the port mapping is set to expire at, using this machine's clock.
    expiration: Instant,

    /// The gateway epoch time when the port mapping was created.
    /// The RFC recommends checking if this value ever decreases and assuming the gateway has rebooted if it does by a certain margin (<https://www.rfc-editor.org/info/rfc6886/#section-3.6>, <https://www.rfc-editor.org/info/rfc6887/#section-8.5>).
    /// If the gateway has rebooted, all mappings on the gateway are lost and should be renewed.
    gateway_epoch_seconds: u32,

    /// The type of mapping protocol used, as well as any protocol specific parameters.
    mapping_type: PortMappingType,

    /// The configuration of the timing of UDP requests made to the gateway.
    pub timeout_config: TimeoutConfig,
}

/// What a port mapping consists of.
pub struct PortMappingView {
    pub gateway: GatewayAddress,
    pub protocol: InternetProtocol,
    pub internal_port: NonZeroU16,
    pub external_port: NonZeroU16,
    pub external_ip: IpAddr,
    pub lifetime_seconds: u32,
    pub expiration: Instant,
    pub gateway_epoch_seconds: u32,
    pub mapping_type: PortMappingType,
    pub timeout_config: TimeoutConfig,
}

impl View for PortMapping {
    type V = PortMappingView;

    closed spec fn view(&self) -> PortMappingView {
        PortMappingView {
            gateway: self.gateway,
            protocol: self.protocol,
            internal_port: self.internal_port,
            external_port: self.external_port,
            external_ip: self.external_ip,
            lifetime_seconds: self.lifetime_seconds,
            expiration: self.expiration,
            gateway_epoch_seconds: self.gateway_epoch_seconds,
            mapping_type: self.mapping_type,
            timeout_config: self.timeout_config,
        }
    }
}

/// What a gateway granted in answer to a request for a port mapping.
#[derive(Clone, Copy, Debug)]
pub struct Grant {
    /// The external port of the mapping.
    pub external_port: NonZeroU16,

    /// The external IP address of the mapping.
    pub external_ip: IpAddr,

    /// The lifetime of the mapping in seconds.
    pub lifetime_seconds: u32,

    /// The epoch time of the gateway.
    pub gateway_epoch_seconds: u32,
}

/// The number of seconds until a mapping with the given lifetime expires. A lifetime of zero
/// means that a UPnP mapping is permanent, i.e., it effectively never expires.
pub open spec fn seconds_to_expiration(mapping_type: PortMappingType, lifetime_seconds: u32) -> u32 {
    if mapping_type is Upnp && lifetime_seconds == 0 {
        u32::MAX
    } else {
        lifetime_seconds
    }
}

/// The most nanoseconds until a mapping expires.
pub open spec fn max_nanos_to_expiration() -> nat {
    (u32::MAX * NANOS_PER_SECOND) as nat
}

/// The point in time at which a mapping should be renewed, in nanoseconds since the origin of the
/// clock: half its lifetime, in whole seconds, before it expires.
pub open spec fn renewal_nanos(mapping: PortMappingView) -> int {
    mapping.expiration.nanos - (mapping.lifetime_seconds / 2) * NANOS_PER_SECOND
}

/// A mapping that was granted a lifetime is to be renewed before it expires, and no earlier than
/// halfway through its lifetime.
pub proof fn law_renewal_is_halfway(mapping: PortMappingView, granted_at: Instant)
    requires
        mapping.lifetime_seconds > 0,
        mapping.expiration.nanos == granted_at.nanos + seconds_to_expiration(
            mapping.mapping_type,
            mapping.lifetime_seconds,
        ) * NANOS_PER_SECOND,
    ensures
        granted_at.nanos < renewal_nanos(mapping) <= mapping.expiration.nanos,
        2 * (renewal_nanos(mapping) - granted_at.nanos) >= mapping.lifetime_seconds
            * NANOS_PER_SECOND,
        2 * (renewal_nanos(mapping) - granted_at.nanos) <= (mapping.lifetime_seconds + 1)
            * NANOS_PER_SECOND,
{
}

impl Clone for PortMapping {
    fn clone(&self) -> (copy: Self)
        ensures
            copy@ == self@,
    {
        PortMapping {
            gateway: self.gateway,
            protocol: self.protocol,
            internal_port: self.internal_port,
            external_port: self.external_port,
            external_ip: self.external_ip,
            lifetime_seconds: self.lifetime_seconds,
            expiration: self.expiration,
            gateway_epoch_seconds: self.gateway_epoch_seconds,
            mapping_type: self.mapping_type.clone(),
            timeout_config: self.timeout_config,
        }
    }
}

impl PortMapping {
    /// A mapping expires no earlier than its lifetime after the origin of the clock.
    pub open spec fn wf(self) -> bool {
        self@.expiration.nanos >= self@.lifetime_seconds * NANOS_PER_SECOND
    }

    /// The mapping that a gateway granted at the given time.
    pub fn granted(
        gateway: GatewayAddress,
        protocol: InternetProtocol,
        internal_port: NonZeroU16,
        grant: Grant,
        mapping_type: PortMappingType,
        timeout_config: TimeoutConfig,
        now: Instant,
    ) -> (mapping: PortMapping)
        requires
            now.can_add(max_nanos_to_expiration()),
        ensures
            mapping.wf(),
            mapping@.gateway == gateway,
            mapping@.protocol == protocol,
            mapping@.internal_port == internal_port,
            mapping@.external_port == grant.external_port,
            mapping@.external_ip == grant.external_ip,
            mapping@.lifetime_seconds == grant.lifetime_seconds,
            mapping@.expiration.nanos == now.nanos + seconds_to_expiration(
                mapping_type,
                grant.lifetime_seconds,
            ) * NANOS_PER_SECOND,
            mapping@.gateway_epoch_seconds == grant.gateway_epoch_seconds,
            mapping@.mapping_type == mapping_type,
            mapping@.timeout_config == timeout_config,
    {
        // A lifetime of zero means a UPnP mapping is permanent, i.e., it effectively never expires.
        let seconds: u32 = match &mapping_type {
            PortMappingType::Upnp { .. } if grant.lifetime_seconds == 0 => u32::MAX,
            _ => grant.lifetime_seconds,
        };
        PortMapping {
            gateway,
            protocol,
            internal_port,
            external_port: grant.external_port,
            external_ip: grant.external_ip,
            lifetime_seconds: grant.lifetime_seconds,
            expiration: now.after(Duration::from_secs(seconds as u64)),
            gateway_epoch_seconds: grant.gateway_epoch_seconds,
            mapping_type,
            timeout_config,
        }
    }

    /// The address of the gateway the mapping is registered with, along with an optional IPv6 scope (zone) id.
    #[must_use]
    pub fn gateway(&self) -> (gateway: GatewayAddress)
        ensures
            gateway == self@.gateway,
    {
        self.gateway
    }

    /// The IPv6 scope (zone) id toward the gateway, if the gateway is link-local.
    /// Only returns `Some(scope_id)` if the gateway address is IPv6 and a scope ID was provided, otherwise `None`.
    #[must_use]
    pub fn gateway_scope_id(&self) -> (scope_id: Option<u32>)
        ensures
            scope_id == (match self@.gateway {
                GatewayAddress::IpV6(_, id) => id,
                GatewayAddress::IpV4(_) => None,
            }),
    {
        match self.gateway {
            GatewayAddress::IpV6(_, scope_id) => scope_id,
            GatewayAddress::IpV4(_) => None,
        }
    }

    /// The protocol the mapping is for.
    #[must_use]
    pub fn protocol(&self) -> (protocol: InternetProtocol)
        ensures
            protocol == self@.protocol,
    {
        self.protocol
    }

    /// The internal/local port of the port mapping.
    #[must_use]
    pub fn internal_port(&self) -> (port: NonZeroU16)
        ensures
            port == self@.internal_port,
    {
        self.internal_port
    }

    /// The external port of the port mapping.
    #[must_use]
    pub fn external_port(&self) -> (port: NonZeroU16)
        ensures
            port == self@.external_port,
    {
        self.external_port
    }

    /// The external IP address of the port mapping.
    /// NAT-PMP responses do not include this address, so it is requested separately when
    /// the mapping is created or renewed. A gateway without an established WAN connection
    /// may report an unspecified address.
    #[must_use]
    pub fn external_ip(&self) -> (ip: IpAddr)
        ensures
            ip == self@.external_ip,
    {
        self.external_ip
    }

    /// The lifetime of the port mapping in seconds.
    /// A lifetime of `0` indicates a permanent mapping, which only UPnP gateways may create.
    #[must_use]
    pub fn lifetime(&self) -> (seconds: u32)
        ensures
            seconds == self@.lifetime_seconds,
    {
        self.lifetime_seconds
    }

    /// The datetime the port mapping is set to expire at, using this machine's clock.
    #[must_use]
    pub fn expiration(&self) -> (expiration: Instant)
        ensures
            expiration == self@.expiration,
    {
        self.expiration
    }

    /// The gateway epoch time when the port mapping was created.
    /// UPnP does not share an epoch, so this is always `0` for UPnP mappings.
    #[must_use]
    pub fn gateway_epoch(&self) -> (seconds: u32)
        ensures
            seconds == self@.gateway_epoch_seconds,
    {
        self.gateway_epoch_seconds
    }

    /// The type of mapping protocol used, as well as any protocol specific parameters.
    #[must_use]
    pub fn mapping_type(&self) -> (mapping_type: PortMappingType)
        ensures
            mapping_type == self@.mapping_type,
    {
        self.mapping_type.clone()
    }

    /// The datetime after which the port mapping should be renewed, using this machine's clock.
    /// Renewal halfway through the lifetime is recommended by the RFC, see <https://www.rfc-editor.org/rfc/rfc6886#page-13>.
    #[must_use]
    pub fn renew_after(&self) -> (time: Instant)
        requires
            self.wf(),
        ensures
            time.nanos == renewal_nanos(self@),
    {
        self.expiration.before(Duration::from_secs(self.lifetime_seconds as u64 / 2))
    }
}

/// What a request about an existing mapping is made for, and with which timing.
#[derive(Clone, Copy, Debug)]
pub struct MappingTarget {
    /// The address of the gateway the request is made to.
    pub gateway: GatewayAddress,

    /// The protocol the mapping is for.
    pub protocol: InternetProtocol,

    /// The internal port of the mapping.
    pub internal_port: NonZeroU16,

    /// The configuration of the timing of the request.
    pub timeout_config: TimeoutConfig,
}

/// The request to the gateway that renews a mapping.
#[derive(Debug)]
pub enum RenewRequest {
    /// A NAT-PMP request.
    NatPmp {
        /// What the request is made for.
        target: MappingTarget,
        /// The options of the request.
        options: PortMappingOptions,
    },

    /// A PCP request.
    Pcp {
        /// What the request is made for.
        target: MappingTarget,
        /// The options of the request.
        options: PortMappingOptions,
        /// Our address as seen by the PCP server.
        client: IpAddr,
        /// The nonce which identifies the session with the PCP server.
        nonce: pcp::Nonce,
        /// The external IP address to ask for.
        external_ip: IpAddr,
    },

    /// A UPnP request through an already discovered control endpoint.
    Upnp {
        /// What the request is made for.
        target: MappingTarget,
        /// The options of the request.
        options: PortMappingOptions,
        /// Our address as seen by the gateway.
        client: IpAddr,
        /// The endpoint discovered on the gateway.
        endpoint: ControlEndpoint,
    },
}

/// What follows the outcome of a request that renews a mapping.
#[derive(Debug)]
pub enum RenewStep {
    /// The mapping was renewed.
    Renewed,

    /// The control endpoint is to be discovered again, and the mapping requested through it.
    Rediscover {
        /// What the request is made for.
        target: MappingTarget,
        /// The options of the request.
        options: PortMappingOptions,
        /// Our address as seen by the gateway.
        client: IpAddr,
    },

    /// The mapping could not be renewed.
    Failed(MappingFailure),
}

/// The request to the gateway that deletes a mapping.
#[derive(Debug)]
pub enum DropRequest {
    /// A NAT-PMP request, which names the mapping by its internal port and protocol.
    NatPmp {
        /// What the request is made for.
        target: MappingTarget,
    },

    /// A PCP request, which names the mapping by its internal port and protocol.
    Pcp {
        /// What the request is made for.
        target: MappingTarget,
        /// Our address as seen by the PCP server.
        client: IpAddr,
        /// The nonce which identifies the session with the PCP server.
        nonce: pcp::Nonce,
    },

    /// A UPnP request, which names the mapping by its external port and protocol.
    Upnp {
        /// What the request is made for.
        target: MappingTarget,
        /// The endpoint discovered on the gateway.
        endpoint: ControlEndpoint,
        /// The external port of the mapping.
        external_port: NonZeroU16,
    },
}

/// Whether a failure is one of the protocol that a mapping was made with.
pub open spec fn is_failure_of(failure: MappingFailure, mapping_type: PortMappingType) -> bool {
    match mapping_type {
        PortMappingType::NatPmp => failure is NatPmp,
        PortMappingType::Pcp { .. } => failure is Pcp,
        PortMappingType::Upnp { .. } => failure is Upnp,
    }
}

/// Whether a failure suggests that a control endpoint is stale: some gateways host their control
/// URL on a new port after each reboot.
pub open spec fn suggests_stale_endpoint(failure: MappingFailure) -> bool {
    failure matches MappingFailure::Upnp(f) && (f is Socket || f is Timeout || f
        == upnp::Failure::HttpStatus(404))
}

impl PortMapping {
    /// What requests about this mapping are made for, and with which timing.
    pub open spec fn spec_target(self) -> MappingTarget {
        MappingTarget {
            gateway: self@.gateway,
            protocol: self@.protocol,
            internal_port: self@.internal_port,
            timeout_config: self@.timeout_config,
        }
    }

    /// What requests about this mapping are made for, and with which timing.
    pub fn target(&self) -> (target: MappingTarget)
        ensures
            target == self.spec_target(),
    {
        MappingTarget {
            gateway: self.gateway,
            protocol: self.protocol,
            internal_port: self.internal_port,
            timeout_config: self.timeout_config,
        }
    }

    /// The options of the request that renews this mapping: the port, the lifetime and the timing
    /// stay what they are.
    pub open spec fn spec_renew_options(self) -> PortMappingOptions {
        PortMappingOptions {
            external_port: Some(self@.external_port),
            lifetime_seconds: Some(self@.lifetime_seconds),
            timeout_config: Some(self@.timeout_config),
        }
    }

    /// The options of the request that renews this mapping.
    pub fn renew_options(&self) -> (options: PortMappingOptions)
        ensures
            options == self.spec_renew_options(),
    {
        PortMappingOptions {
            external_port: Some(self.external_port),
            lifetime_seconds: Some(self.lifetime_seconds),
            timeout_config: Some(self.timeout_config),
        }
    }

    /// The request that renews this mapping with the protocol it was made with, for its own
    /// gateway, protocol and internal port.
    pub fn renew_request(&self) -> (request: RenewRequest)
        ensures
            request == (match self@.mapping_type {
                PortMappingType::NatPmp => RenewRequest::NatPmp {
                    target: self.spec_target(),
                    options: self.spec_renew_options(),
                },
                PortMappingType::Pcp { client, nonce } => RenewRequest::Pcp {
                    target: self.spec_target(),
                    options: self.spec_renew_options(),
                    client,
                    nonce,
                    external_ip: self@.external_ip,
                },
                PortMappingType::Upnp { client, endpoint } => RenewRequest::Upnp {
                    target: self.spec_target(),
                    options: self.spec_renew_options(),
                    client,
                    endpoint,
                },
            }),
    {
        let target = self.target();
        let options = self.renew_options();
        match self.mapping_type.clone() {
            PortMappingType::NatPmp => RenewRequest::NatPmp { target, options },
            PortMappingType::Pcp { client, nonce } => RenewRequest::Pcp {
                target,
                options,
                client,
                nonce,
                external_ip: self.external_ip,
            },
            PortMappingType::Upnp { client, endpoint } => RenewRequest::Upnp {
                target,
                options,
                client,
                endpoint,
            },
        }
    }

    /// Take the outcome of a request that renews this mapping. A renewal also refreshes the
    /// address reported by `external_ip()`, so a stale external address is corrected. The mapping
    /// is left as it is unless it was renewed. A UPnP mapping whose control endpoint may be stale
    /// is retried once with a fresh discovery; `rediscovered` says whether that was done. A
    /// failure is one of the protocol that the mapping was made with.
    pub fn renew(
        &mut self,
        outcome: Result<PortMapping, MappingFailure>,
        rediscovered: bool,
    ) -> (step: RenewStep)
        requires
            outcome matches Err(e) ==> is_failure_of(e, old(self)@.mapping_type),
        ensures
            match outcome {
                Ok(renewed) => *final(self) == renewed && step is Renewed,
                Err(e) => {
                    &&& *final(self) == *old(self)
                    &&& match old(self)@.mapping_type {
                        PortMappingType::Upnp { client, .. } if !rediscovered
                            && suggests_stale_endpoint(e) => step == (RenewStep::Rediscover {
                            target: old(self).spec_target(),
                            options: old(self).spec_renew_options(),
                            client,
                        }),
                        _ => step == RenewStep::Failed(e),
                    }
                },
            },
            step matches RenewStep::Failed(e) ==> is_failure_of(e, old(self)@.mapping_type),
    {
        let failure = match outcome {
            Ok(renewed) => {
                *self = renewed;
                return RenewStep::Renewed;
            },
            Err(failure) => failure,
        };
        if rediscovered {
            return RenewStep::Failed(failure);
        }
        let stale = match &failure {
            MappingFailure::Upnp(upnp::Failure::Socket(_)) => true,
            MappingFailure::Upnp(upnp::Failure::Timeout) => true,
            MappingFailure::Upnp(upnp::Failure::HttpStatus(404)) => true,
            _ => false,
        };
        match &self.mapping_type {
            // The stored endpoint may be stale: some gateways host their control URL
            // on a new port after each reboot. Retry once with a fresh discovery.
            PortMappingType::Upnp { client, .. } if stale => RenewStep::Rediscover {
                target: self.target(),
                options: self.renew_options(),
                client: *client,
            },
            _ => RenewStep::Failed(failure),
        }
    }

    /// The request that deletes this mapping with the protocol it was made with, for its own
    /// gateway, protocol and port, with its timing.
    pub fn drop_request(&self) -> (request: DropRequest)
        ensures
            request == (match self@.mapping_type {
                PortMappingType::NatPmp => DropRequest::NatPmp { target: self.spec_target() },
                PortMappingType::Pcp { client, nonce } => DropRequest::Pcp {
                    target: self.spec_target(),
                    client,
                    nonce,
                },
                PortMappingType::Upnp { endpoint, .. } => DropRequest::Upnp {
                    target: self.spec_target(),
                    endpoint,
                    external_port: self@.external_port,
                },
            }),
    {
        let target = self.target();
        match self.mapping_type.clone() {
            PortMappingType::NatPmp => DropRequest::NatPmp { target },
            PortMappingType::Pcp { client, nonce } => DropRequest::Pcp { target, client, nonce },
            PortMappingType::Upnp { endpoint, .. } => DropRequest::Upnp {
                target,
                endpoint,
                external_port: self.external_port,
            },
        }
    }

    /// Take the outcome of the request that deletes this mapping. If it failed, the failure, which
    /// is one of the protocol that the mapping was made with, and the `PortMapping` are given
    /// back.
    pub fn try_drop(self, outcome: Result<(), MappingFailure>) -> (dropped: Result<
        (),
        (MappingFailure, PortMapping),
    >)
        requires
            outcome matches Err(e) ==> is_failure_of(e, self@.mapping_type),
        ensures
            dropped == (match outcome {
                Ok(_) => Ok::<(), (MappingFailure, PortMapping)>(()),
                Err(e) => Err((e, self)),
            }),
            dropped matches Err((e, mapping)) ==> is_failure_of(e, mapping@.mapping_type),
    {
        match outcome {
            Ok(_) => Ok(()),
            Err(e) => Err((e, self)),
        }
    }
}

/// A mapping expires when its lifetime has passed. Only a UPnP mapping can be permanent, with a
/// lifetime of zero, and then lasts longer than a hundred years.
pub proof fn law_mappings_expire(mapping_type: PortMappingType, lifetime_seconds: u32)
    ensures
        lifetime_seconds > 0 ==> seconds_to_expiration(mapping_type, lifetime_seconds)
            == lifetime_seconds,
        !(mapping_type is Upnp) ==> seconds_to_expiration(mapping_type, lifetime_seconds)
            == lifetime_seconds,
        mapping_type is Upnp && lifetime_seconds == 0 ==> seconds_to_expiration(
            mapping_type,
            lifetime_seconds,
        ) > 100 * 365 * 24 * 60 * 60,
{
}

/// A renewal asks for what the mapping is: its gateway, protocol and internal port, with the same
/// external port, lifetime and timing. So does a deletion.
pub proof fn law_requests_are_for_the_mapping(mapping: PortMapping)
    ensures
        mapping.spec_target().gateway == mapping@.gateway,
        mapping.spec_target().protocol == mapping@.protocol,
        mapping.spec_target().internal_port == mapping@.internal_port,
        mapping.spec_target().timeout_config == mapping@.timeout_config,
        mapping.spec_renew_options().external_port == Some(mapping@.external_port),
        mapping.spec_renew_options().lifetime_seconds == Some(mapping@.lifetime_seconds),
        mapping.spec_renew_options().timeout_config == Some(mapping@.timeout_config),
{
}

/// A control endpoint that cannot be reached, does not answer, or does not know the path any more
/// may be stale. No other answer, and no failure of another protocol, suggests that.
pub proof fn law_stale_endpoints_are_suspected(failure: MappingFailure)
    ensures
        suggests_stale_endpoint(failure) <==> (failure matches MappingFailure::Upnp(f) && match f {
            upnp::Failure::Socket(_) => true,
            upnp::Failure::Timeout => true,
            upnp::Failure::HttpStatus(status) => status == 404,
            _ => false,
        }),
        suggests_stale_endpoint(failure) ==> !(failure is NatPmp) && !(failure is Pcp),
{
}

/// A failure is one of the protocol that a mapping was made with, and of no other.
pub proof fn law_failures_are_of_one_protocol(failure: MappingFailure, mapping_type: PortMappingType)
    ensures
        is_failure_of(failure, mapping_type) <==> (failure is NatPmp && mapping_type is NatPmp) || (
        failure is Pcp && mapping_type is Pcp) || (failure is Upnp && mapping_type is Upnp),
{
}

} // verus!
