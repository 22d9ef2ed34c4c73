//! Mapping a port through the control endpoint of a gateway.
//!
//! A mapping takes several SOAP actions, each chosen by the outcome of the one before. A
//! `MapRequest` names the action to perform next and takes its outcome.

use vstd::prelude::*;
use vstd::string::*;

use crate::address::{GatewayAddress, IpAddr, NonZeroU16};
use crate::mapping;
use crate::mapping::{Grant, PortMapping, PortMappingType};
use crate::options;
use crate::options::{upnp_config_or_default, PortMappingOptions};
use crate::protocol::InternetProtocol;
use crate::text;
use crate::time::Instant;
use crate::upnp::endpoint::ControlEndpoint;
use crate::upnp::failure::Failure;
use crate::upnp::service::WanService;
use crate::upnp::soap;
use crate::upnp::soap::{drop_arguments, external_address, map_arguments, reserved_port};
use crate::upnp::xml;
use crate::RECOMMENDED_MAPPING_LIFETIME_SECONDS;

verus! {

/// A SOAP action to perform.
#[derive(Debug)]
pub struct SoapAction {
    /// The name of the action.
    pub name: &'static str,

    /// The arguments of the action.
    pub arguments: String,
}

/// How far a mapping request has come.
#[derive(Clone, Copy, Debug, PartialEq, Eq, Structural)]
pub enum Stage {
    /// The external IP address of the gateway is being read.
    ExternalAddress,

    /// The gateway is being asked to choose an external port.
    AddAny {
        /// The external IP address of the gateway.
        external_ip: IpAddr,
        /// The lifetime being requested, in seconds.
        lifetime_seconds: u32,
    },

    /// The gateway is being asked for a certain external port.
    Add {
        /// The external IP address of the gateway.
        external_ip: IpAddr,
        /// The external port being requested.
        external_port: NonZeroU16,
        /// The lifetime being requested, in seconds.
        lifetime_seconds: u32,
    },
}

/// What follows the outcome of an action of a mapping request.
#[derive(Debug)]
pub enum MapStep {
    /// The next action is to be performed.
    Continue,

    /// The gateway granted a mapping.
    Granted(Grant),

    /// The request failed.
    Failed(Failure),
}

/// The parameters of a mapping request sent to a control endpoint, and how far it has come.
#[derive(Debug)]
pub struct MapRequest {
    /// The service of the control endpoint.
    pub service: WanService,

    /// The text of the client's IP address.
    pub client: String,

    /// The protocol to map a port for.
    pub protocol: InternetProtocol,

    /// The internal port to map.
    pub internal_port: NonZeroU16,

    /// The external port to map, if a certain one is requested.
    pub external_port: Option<NonZeroU16>,

    /// The lifetime to request, in seconds.
    pub lifetime_seconds: u32,

    /// How far the request has come.
    pub stage: Stage,
}

/// Whether a mapping request rejection indicates the gateway needs a permanent lifetime.
pub open spec fn rejects_lifetime(failure: Failure) -> bool {
    failure is OnlyPermanentLeasesSupported || failure is InvalidArgs || failure is ActionFailed
}

/// Whether a rejection indicates that the gateway does not implement the action.
pub open spec fn rejects_action(failure: Failure) -> bool {
    failure is InvalidAction || failure is OptionalActionNotImplemented
}

impl MapRequest {
    /// The lifetime that options request.
    pub open spec fn requested_lifetime(options: PortMappingOptions) -> u32 {
        match options.lifetime_seconds {
            Some(seconds) => seconds,
            None => RECOMMENDED_MAPPING_LIFETIME_SECONDS,
        }
    }

    /// A request to map a port through a control endpoint. `client` is the text of the client's
    /// IP address. The external IP address is read before the mapping is created: some gateways
    /// only support permanent mappings, which would be leaked if a later step of the request
    /// failed.
    pub fn new(
        endpoint: &ControlEndpoint,
        client: &str,
        protocol: InternetProtocol,
        internal_port: NonZeroU16,
        mapping_options: PortMappingOptions,
    ) -> (request: MapRequest)
        ensures
            request.service == endpoint.service,
            request.client@ == client@,
            request.protocol == protocol,
            request.internal_port == internal_port,
            request.external_port == mapping_options.external_port,
            request.lifetime_seconds == MapRequest::requested_lifetime(mapping_options),
            request.stage == Stage::ExternalAddress,
    {
        MapRequest {
            service: endpoint.service,
            client: client.to_owned(),
            protocol,
            internal_port,
            external_port: mapping_options.external_port,
            lifetime_seconds: match mapping_options.lifetime_seconds {
                Some(seconds) => seconds,
                None => RECOMMENDED_MAPPING_LIFETIME_SECONDS,
            },
            stage: Stage::ExternalAddress,
        }
    }

    /// The name of the next action.
    pub open spec fn action_name(self) -> Seq<char> {
        match self.stage {
            Stage::ExternalAddress => "GetExternalIPAddress"@,
            Stage::AddAny { .. } => "AddAnyPortMapping"@,
            Stage::Add { .. } => "AddPortMapping"@,
        }
    }

    /// The arguments of the next action.
    pub open spec fn action_arguments(self) -> Seq<char> {
        match self.stage {
            Stage::ExternalAddress => ""@,
            Stage::AddAny { lifetime_seconds, .. } => soap::add_arguments(
                self.internal_port.spec_get(),
                self.protocol,
                self.internal_port.spec_get(),
                self.client@,
                lifetime_seconds,
            ),
            Stage::Add { external_port, lifetime_seconds, .. } => soap::add_arguments(
                external_port.spec_get(),
                self.protocol,
                self.internal_port.spec_get(),
                self.client@,
                lifetime_seconds,
            ),
        }
    }

    /// The SOAP action to perform next. Without a requested external port, the internal port is
    /// suggested to the gateway.
    pub fn action(&self) -> (action: SoapAction)
        ensures
            action.name@ == self.action_name(),
            action.arguments@ == self.action_arguments(),
    {
        match self.stage {
            Stage::ExternalAddress => SoapAction {
                name: "GetExternalIPAddress",
                arguments: "".to_owned(),
            },
            Stage::AddAny { lifetime_seconds, .. } => SoapAction {
                name: "AddAnyPortMapping",
                arguments: map_arguments(
                    self.internal_port,
                    self.protocol,
                    self.internal_port,
                    self.client.as_str(),
                    lifetime_seconds,
                ),
            },
            Stage::Add { external_port, lifetime_seconds, .. } => SoapAction {
                name: "AddPortMapping",
                arguments: map_arguments(
                    external_port,
                    self.protocol,
                    self.internal_port,
                    self.client.as_str(),
                    lifetime_seconds,
                ),
            },
        }
    }

    /// Whether a mapping request rejection indicates the gateway needs a permanent lifetime.
    /// Gateways which only support permanent mappings answer with `OnlyPermanentLeasesSupported`,
    /// or with `InvalidArgs` or `ActionFailed` on firmware predating that error code.
    pub fn needs_permanent_lifetime(failure: &Failure) -> (needed: bool)
        ensures
            needed == rejects_lifetime(*failure),
    {
        match failure {
            Failure::OnlyPermanentLeasesSupported => true,
            Failure::InvalidArgs => true,
            Failure::ActionFailed => true,
            _ => false,
        }
    }

    /// The stage that follows reading the external IP address. A requested external port always
    /// uses `AddPortMapping`: `AddAnyPortMapping` treats the port as a suggestion, which would
    /// allow renewals to drift to a new external port. Version 1 gateways cannot choose an
    /// external port for us, so the default is the internal port.
    pub open spec fn first_add(self, external_ip: IpAddr) -> Stage {
        if self.service == WanService::WanIpConnection2 && self.external_port is None {
            Stage::AddAny { external_ip, lifetime_seconds: self.lifetime_seconds }
        } else {
            Stage::Add {
                external_ip,
                external_port: match self.external_port {
                    Some(port) => port,
                    None => self.internal_port,
                },
                lifetime_seconds: self.lifetime_seconds,
            }
        }
    }

    /// The stage that follows a rejection of an action, if the request is not over.
    pub open spec fn after_rejection(self, failure: Failure) -> Option<Stage> {
        match self.stage {
            Stage::ExternalAddress => None,
            Stage::AddAny { external_ip, lifetime_seconds } => if rejects_lifetime(failure)
                && lifetime_seconds != 0 {
                Some(Stage::AddAny { external_ip, lifetime_seconds: 0 })
            } else if rejects_action(failure) {
                Some(
                    Stage::Add {
                        external_ip,
                        external_port: self.internal_port,
                        lifetime_seconds: self.lifetime_seconds,
                    },
                )
            } else {
                None
            },
            Stage::Add { external_ip, external_port, lifetime_seconds } => if rejects_lifetime(
                failure,
            ) && lifetime_seconds != 0 {
                Some(Stage::Add { external_ip, external_port, lifetime_seconds: 0 })
            } else {
                None
            },
        }
    }

    /// Whether a stage and a step follow from the outcome of the next action.
    pub open spec fn is_next(
        self,
        response: Result<String, Failure>,
        parsed: Option<IpAddr>,
        stage: Stage,
        step: MapStep,
    ) -> bool {
        match (self.stage, response) {
            (Stage::ExternalAddress, _) => exists|address: Result<IpAddr, Failure>|
                {
                    &&& #[trigger] soap::is_external_address(response, parsed, address)
                    &&& match address {
                        Ok(external_ip) => stage == self.first_add(external_ip) && step is Continue,
                        Err(e) => stage == self.stage && step == MapStep::Failed(e),
                    }
                },
            (_, Err(e)) => match self.after_rejection(e) {
                Some(next) => stage == next && step is Continue,
                None => stage == self.stage && step == MapStep::Failed(e),
            },
            (Stage::AddAny { external_ip, lifetime_seconds }, Ok(body)) => exists|
                port: Result<NonZeroU16, Failure>,
            |
                {
                    &&& #[trigger] soap::is_reserved_port(body@, port)
                    &&& stage == self.stage
                    &&& match port {
                        Ok(external_port) => step == MapStep::Granted(
                            Grant {
                                external_port,
                                external_ip,
                                lifetime_seconds,
                                gateway_epoch_seconds: 0,
                            },
                        ),
                        Err(e) => step == MapStep::Failed(e),
                    }
                },
            (Stage::Add { external_ip, external_port, lifetime_seconds }, Ok(_)) => stage
                == self.stage && step == MapStep::Granted(
                Grant { external_port, external_ip, lifetime_seconds, gateway_epoch_seconds: 0 },
            ),
        }
    }

    /// Take the outcome of the SOAP action that `action` named. `parsed` is the IP address that
    /// the text of the external address in the response parses to, if there is one.
    /// UPnP does not share a "seconds since boot" epoch the way NAT-PMP and PCP do, so grants
    /// have an epoch of zero.
    pub fn step(&mut self, response: Result<String, Failure>, parsed: Option<IpAddr>) -> (step:
        MapStep)
        ensures
            old(self).is_next(response, parsed, final(self).stage, step),
            *final(self) == (MapRequest { stage: final(self).stage, ..*old(self) }),
    {
        match self.stage {
            Stage::ExternalAddress => {
                let address = external_address(response, parsed);
                assert(soap::is_external_address(response, parsed, address));
                match address {
                    Ok(external_ip) => {
                        self.stage = self.start_adding(external_ip);
                        MapStep::Continue
                    },
                    Err(e) => MapStep::Failed(e),
                }
            },
            Stage::AddAny { external_ip, lifetime_seconds } => match response {
                Ok(body) => {
                    let port = reserved_port(body.as_str());
                    assert(soap::is_reserved_port(body@, port));
                    match port {
                        Ok(external_port) => MapStep::Granted(
                            Grant {
                                external_port,
                                external_ip,
                                lifetime_seconds,
                                gateway_epoch_seconds: 0,
                            },
                        ),
                        Err(e) => MapStep::Failed(e),
                    }
                },

                // Retry with a permanent lifetime if the gateway requires one.
                Err(e) if MapRequest::needs_permanent_lifetime(&e) && lifetime_seconds != 0 => {
                    self.stage = Stage::AddAny { external_ip, lifetime_seconds: 0 };
                    MapStep::Continue
                },

                // Some gateways advertise `WANIPConnection:2` without implementing `AddAnyPortMapping`;
                // retry with the version 1 action, which requests the internal port as the external port.
                Err(Failure::InvalidAction) | Err(Failure::OptionalActionNotImplemented) => {
                    self.stage = Stage::Add {
                        external_ip,
                        external_port: self.internal_port,
                        lifetime_seconds: self.lifetime_seconds,
                    };
                    MapStep::Continue
                },

                // Any other error is returned immediately.
                Err(e) => MapStep::Failed(e),
            },
            Stage::Add { external_ip, external_port, lifetime_seconds } => match response {
                Ok(_) => MapStep::Granted(
                    Grant { external_port, external_ip, lifetime_seconds, gateway_epoch_seconds: 0 },
                ),

                // Retry with a permanent lifetime if the gateway requires one.
                Err(e) if MapRequest::needs_permanent_lifetime(&e) && lifetime_seconds != 0 => {
                    self.stage = Stage::Add { external_ip, external_port, lifetime_seconds: 0 };
                    MapStep::Continue
                },

                // Any other error is returned immediately.
                Err(e) => MapStep::Failed(e),
            },
        }
    }

    /// The stage that follows reading the external IP address.
    fn start_adding(&self, external_ip: IpAddr) -> (stage: Stage)
        ensures
            stage == self.first_add(external_ip),
    {
        if self.service == WanService::WanIpConnection2 && self.external_port.is_none() {
            // Without a requested external port, ask the gateway to choose a free one.
            Stage::AddAny { external_ip, lifetime_seconds: self.lifetime_seconds }
        } else {
            Stage::Add {
                external_ip,
                external_port: match self.external_port {
                    Some(port) => port,
                    None => self.internal_port,
                },
                lifetime_seconds: self.lifetime_seconds,
            }
        }
    }

    /// What holds of a request at any time: a lifetime being requested is the one asked for or a
    /// permanent one, and a requested external port is kept.
    pub open spec fn wf(self) -> bool {
        match self.stage {
            Stage::ExternalAddress => true,
            Stage::AddAny { lifetime_seconds, .. } => {
                &&& self.service == WanService::WanIpConnection2
                &&& self.external_port is None
                &&& lifetime_seconds == self.lifetime_seconds || lifetime_seconds == 0
            },
            Stage::Add { external_port, lifetime_seconds, .. } => {
                &&& external_port == (match self.external_port {
                    Some(port) => port,
                    None => self.internal_port,
                })
                &&& lifetime_seconds == self.lifetime_seconds || lifetime_seconds == 0
            },
        }
    }

    /// The most actions that a request still performs.
    pub open spec fn actions_left(self) -> nat {
        match self.stage {
            Stage::ExternalAddress => 5,
            Stage::AddAny { lifetime_seconds, .. } => if lifetime_seconds != 0 {
                4
            } else {
                3
            },
            Stage::Add { lifetime_seconds, .. } => if lifetime_seconds != 0 {
                2
            } else {
                1
            },
        }
    }
}

/// A mapping request comes to an end after at most five actions. A grant has the external port
/// that was requested, if one was, and a lifetime that is the requested one or permanent. The
/// external address is read before any action that creates a mapping.
pub proof fn law_map_request(
    request: MapRequest,
    response: Result<String, Failure>,
    parsed: Option<IpAddr>,
    stage: Stage,
    step: MapStep,
)
    requires
        request.wf(),
        request.is_next(response, parsed, stage, step),
    ensures
        ({
            let next = MapRequest { stage, ..request };
            &&& next.wf()
            &&& !(stage is ExternalAddress) || step is Failed
            &&& step is Continue ==> 0 < next.actions_left() < request.actions_left() <= 5
            &&& step matches MapStep::Granted(grant) ==> {
                &&& !(request.stage is ExternalAddress)
                &&& request.external_port matches Some(port) ==> grant.external_port == port
                &&& grant.lifetime_seconds == request.lifetime_seconds || grant.lifetime_seconds
                    == 0
            }
        }),
{
}

/// How a gateway answers the actions of a mapping request.
pub struct Answers {
    /// The external IP address that is read.
    pub address: Result<IpAddr, Failure>,

    /// The port that is reserved when the gateway is asked to choose one, for each lifetime.
    pub add_any: spec_fn(u32) -> Result<NonZeroU16, Failure>,

    /// Whether a mapping of a port is accepted, for each lifetime.
    pub add: spec_fn(NonZeroU16, u32) -> Result<(), Failure>,
}

/// The result of asking for a certain external port: the lifetime granted. It is asked for
/// permanently when the gateway rejects the lifetime.
pub open spec fn add_result(answers: Answers, port: NonZeroU16, lifetime_seconds: u32) -> Result<
    u32,
    Failure,
> {
    match (answers.add)(port, lifetime_seconds) {
        Ok(_) => Ok(lifetime_seconds),
        Err(e) => if rejects_lifetime(e) && lifetime_seconds != 0 {
            match (answers.add)(port, 0) {
                Ok(_) => Ok(0),
                Err(e) => Err(e),
            }
        } else {
            Err(e)
        },
    }
}

/// The result of asking the gateway to choose a port: the port and the lifetime granted. It is
/// asked permanently when the gateway rejects the lifetime.
pub open spec fn add_any_result(answers: Answers, lifetime_seconds: u32) -> Result<
    (NonZeroU16, u32),
    Failure,
> {
    match (answers.add_any)(lifetime_seconds) {
        Ok(port) => Ok((port, lifetime_seconds)),
        Err(e) => if rejects_lifetime(e) && lifetime_seconds != 0 {
            match (answers.add_any)(0) {
                Ok(port) => Ok((port, 0)),
                Err(e) => Err(e),
            }
        } else {
            Err(e)
        },
    }
}

/// A lifetime granted for a port, as a grant.
pub open spec fn grant_of(
    external_ip: IpAddr,
    external_port: NonZeroU16,
    lifetime: Result<u32, Failure>,
) -> Result<Grant, Failure> {
    match lifetime {
        Ok(lifetime_seconds) => Ok(
            Grant { external_port, external_ip, lifetime_seconds, gateway_epoch_seconds: 0 },
        ),
        Err(e) => Err(e),
    }
}

impl MapRequest {
    /// The result of the request, given how the gateway answers. Without a requested external
    /// port, a gateway of version 2 is asked to choose one, and the internal port is requested if
    /// it does not implement that.
    pub open spec fn result(self, answers: Answers) -> Result<Grant, Failure> {
        match answers.address {
            Err(e) => Err(e),
            Ok(external_ip) => if self.service == WanService::WanIpConnection2
                && self.external_port is None {
                match add_any_result(answers, self.lifetime_seconds) {
                    Ok((port, lifetime_seconds)) => grant_of(
                        external_ip,
                        port,
                        Ok(lifetime_seconds),
                    ),
                    Err(e) => if rejects_action(e) {
                        grant_of(
                            external_ip,
                            self.internal_port,
                            add_result(answers, self.internal_port, self.lifetime_seconds),
                        )
                    } else {
                        Err(e)
                    },
                }
            } else {
                let port = match self.external_port {
                    Some(port) => port,
                    None => self.internal_port,
                };
                grant_of(external_ip, port, add_result(answers, port, self.lifetime_seconds))
            },
        }
    }

    /// Whether an outcome of the next action is how the gateway answers it.
    pub open spec fn is_answer(
        self,
        response: Result<String, Failure>,
        parsed: Option<IpAddr>,
        answers: Answers,
    ) -> bool {
        match self.stage {
            Stage::ExternalAddress => soap::is_external_address(response, parsed, answers.address),
            Stage::AddAny { lifetime_seconds, .. } => match response {
                Ok(body) => soap::is_reserved_port(body@, (answers.add_any)(lifetime_seconds)),
                Err(e) => (answers.add_any)(lifetime_seconds) == Err::<NonZeroU16, _>(e),
            },
            Stage::Add { external_port, lifetime_seconds, .. } => match response {
                Ok(_) => (answers.add)(external_port, lifetime_seconds) is Ok,
                Err(e) => (answers.add)(external_port, lifetime_seconds) == Err::<(), _>(e),
            },
        }
    }

    /// Whether what was requested so far agrees with how the gateway answers.
    pub open spec fn agrees_with(self, answers: Answers) -> bool {
        match self.stage {
            Stage::ExternalAddress => true,
            Stage::AddAny { external_ip, lifetime_seconds } => {
                &&& self.service == WanService::WanIpConnection2
                &&& self.external_port is None
                &&& answers.address == Ok::<_, Failure>(external_ip)
                &&& lifetime_seconds == self.lifetime_seconds || (lifetime_seconds == 0 && (
                (answers.add_any)(self.lifetime_seconds) matches Err(e) && rejects_lifetime(e)))
            },
            Stage::Add { external_ip, external_port, lifetime_seconds } => {
                &&& self.result(answers) == grant_of(
                    external_ip,
                    external_port,
                    add_result(answers, external_port, self.lifetime_seconds),
                )
                &&& lifetime_seconds == self.lifetime_seconds || (lifetime_seconds == 0 && (
                (answers.add)(external_port, self.lifetime_seconds) matches Err(e)
                    && rejects_lifetime(e)))
            },
        }
    }
}

/// Whether two failures say the same.
pub open spec fn say_the_same(a: Failure, b: Failure) -> bool {
    a == b || (a is InvalidResponse && b is InvalidResponse && a.spec_message()
        == b.spec_message())
}

/// A mapping request ends with the result that the answers of the gateway make up: whatever the
/// gateway answers next, the request stays in agreement with its answers, and when it ends, with
/// a grant or a failure, that is their result.
pub proof fn law_map_request_result(
    request: MapRequest,
    answers: Answers,
    response: Result<String, Failure>,
    parsed: Option<IpAddr>,
    stage: Stage,
    step: MapStep,
)
    requires
        request.agrees_with(answers),
        request.is_answer(response, parsed, answers),
        request.is_next(response, parsed, stage, step),
    ensures
        match step {
            MapStep::Continue => MapRequest { stage, ..request }.agrees_with(answers),
            MapStep::Granted(grant) => request.result(answers) is Ok && {
                let expected = request.result(answers)->Ok_0;
                &&& grant.external_port.spec_get() == expected.external_port.spec_get()
                &&& grant.external_ip == expected.external_ip
                &&& grant.lifetime_seconds == expected.lifetime_seconds
                &&& grant.gateway_epoch_seconds == 0
            },
            MapStep::Failed(failure) => request.result(answers) is Err && say_the_same(
                failure,
                request.result(answers)->Err_0,
            ),
        },
{
    let next = MapRequest { stage, ..request };
    match request.stage {
        Stage::ExternalAddress => {
            let address = choose|address: Result<IpAddr, Failure>|
                {
                    &&& #[trigger] soap::is_external_address(response, parsed, address)
                    &&& match address {
                        Ok(external_ip) => stage == request.first_add(external_ip)
                            && step is Continue,
                        Err(e) => stage == request.stage && step == MapStep::Failed(e),
                    }
                };
            if let Err(e) = address {
                assert(say_the_same(e, answers.address->Err_0));
            }
        },
        Stage::AddAny { .. } => {
            if let Ok(body) = response {
                let port = choose|port: Result<NonZeroU16, Failure>|
                    {
                        &&& #[trigger] soap::is_reserved_port(body@, port)
                        &&& stage == request.stage
                        &&& match port {
                            Ok(p) => step matches MapStep::Granted(grant) && grant.external_port
                                == p,
                            Err(e) => step == MapStep::Failed(e),
                        }
                    };
                assert(soap::is_reserved_port(body@, port));
            }
        },
        Stage::Add { .. } => {},
    }
    assert(step is Continue ==> next.agrees_with(answers));
}

/// The port mapping made of what the gateway granted through its control endpoint at the given
/// time. A lifetime of zero means the mapping is permanent, i.e., it effectively never expires.
pub fn port_mapping_with_endpoint(
    gateway: GatewayAddress,
    endpoint: &ControlEndpoint,
    client: IpAddr,
    protocol: InternetProtocol,
    internal_port: NonZeroU16,
    mapping_options: PortMappingOptions,
    grant: Grant,
    now: Instant,
) -> (mapping: PortMapping)
    requires
        now.can_add(mapping::max_nanos_to_expiration()),
    ensures
        mapping.wf(),
        mapping@.gateway == gateway,
        mapping@.protocol == protocol,
        mapping@.internal_port == internal_port,
        mapping@.external_port == grant.external_port,
        mapping@.external_ip == grant.external_ip,
        mapping@.lifetime_seconds == grant.lifetime_seconds,
        mapping@.expiration.nanos == now.nanos + (if grant.lifetime_seconds == 0 {
            u32::MAX
        } else {
            grant.lifetime_seconds
        }) * crate::time::NANOS_PER_SECOND,
        mapping@.gateway_epoch_seconds == grant.gateway_epoch_seconds,
        mapping@.mapping_type == (PortMappingType::Upnp { client, endpoint: *endpoint }),
        mapping@.timeout_config == options::upnp_config(mapping_options.timeout_config),
{
    PortMapping::granted(
        gateway,
        protocol,
        internal_port,
        grant,
        PortMappingType::Upnp { client, endpoint: endpoint.clone() },
        upnp_config_or_default(mapping_options.timeout_config),
        now,
    )
}

/// The action that removes a UPnP port mapping on the gateway.
/// The gateway identifies mappings by their external port and protocol alone.
pub fn drop_action(protocol: InternetProtocol, external_port: NonZeroU16) -> (action: SoapAction)
    ensures
        action.name@ == "DeletePortMapping"@,
        action.arguments@ == soap::delete_arguments(external_port.spec_get(), protocol),
{
    SoapAction { name: "DeletePortMapping", arguments: drop_arguments(external_port, protocol) }
}

/// Whether a port mapping was removed, given the outcome of the action, or the reason why not.
pub fn try_drop_mapping(response: Result<String, Failure>) -> (dropped: Result<(), Failure>)
    ensures
        dropped == (match response {
            Ok(_) => Ok::<(), Failure>(()),
            Err(e) => Err(e),
        }),
{
    match response {
        Ok(_) => Ok(()),
        Err(e) => Err(e),
    }
}

/// The actions of a mapping request say what is being asked for: the external address first, then
/// a mapping of the internal port, for the protocol, to the client, enabled, with the external port
/// and the lifetime of the stage. A gateway that is asked to choose a port is given the internal
/// port as a suggestion.
pub proof fn law_actions_ask_for_the_mapping(request: MapRequest)
    requires
        !request.client@.contains('<'),
    ensures
        ({
            let name = request.action_name();
            let arguments = request.action_arguments();
            &&& request.stage is ExternalAddress ==> name == "GetExternalIPAddress"@
                && arguments.len() == 0
            &&& request.stage matches Stage::AddAny { lifetime_seconds, .. } ==> {
                &&& name == "AddAnyPortMapping"@
                &&& xml::tag_value(arguments, "NewExternalPort"@) == Some(
                    text::decimal(request.internal_port.spec_get() as nat),
                )
                &&& xml::tag_value(arguments, "NewLeaseDuration"@) == Some(
                    text::decimal(lifetime_seconds as nat),
                )
            }
            &&& request.stage matches Stage::Add { external_port, lifetime_seconds, .. } ==> {
                &&& name == "AddPortMapping"@
                &&& xml::tag_value(arguments, "NewExternalPort"@) == Some(
                    text::decimal(external_port.spec_get() as nat),
                )
                &&& xml::tag_value(arguments, "NewLeaseDuration"@) == Some(
                    text::decimal(lifetime_seconds as nat),
                )
            }
            &&& !(request.stage is ExternalAddress) ==> {
                &&& xml::tag_value(arguments, "NewInternalPort"@) == Some(
                    text::decimal(request.internal_port.spec_get() as nat),
                )
                &&& xml::tag_value(arguments, "NewInternalClient"@) == Some(
                    text::trim(request.client@),
                )
                &&& xml::tag_value(arguments, "NewProtocol"@) == Some(
                    if request.protocol is Tcp {
                        "TCP"@
                    } else {
                        "UDP"@
                    },
                )
                &&& xml::tag_value(arguments, "NewEnabled"@) == Some("1"@)
                &&& xml::tag_value(arguments, "NewRemoteHost"@) == Some(Seq::<char>::empty())
            }
        }),
{
    reveal_strlit("");
    let internal = request.internal_port.spec_get();
    match request.stage {
        Stage::ExternalAddress => {},
        Stage::AddAny { lifetime_seconds, .. } => {
            soap::law_added_mapping_is_read_back(
                internal,
                request.protocol,
                internal,
                request.client@,
                lifetime_seconds,
            );
        },
        Stage::Add { external_port, lifetime_seconds, .. } => {
            soap::law_added_mapping_is_read_back(
                external_port.spec_get(),
                request.protocol,
                internal,
                request.client@,
                lifetime_seconds,
            );
        },
    }
}

/// Once the external address is known, a requested external port is asked for. Without one, a
/// gateway with the second version of the IP connection service is asked to choose a port, and any
/// other is asked for the internal port. The lifetime is the one requested, or two hours.
pub proof fn law_mappings_are_asked_for(
    request: MapRequest,
    body: String,
    parsed: Option<IpAddr>,
    address: IpAddr,
    stage: Stage,
    step: MapStep,
    options: PortMappingOptions,
)
    requires
        request.stage is ExternalAddress,
        request.is_next(Ok(body), parsed, stage, step),
        xml::tag_value(body@, "NewExternalIPAddress"@) matches Some(value) && value.len() > 0,
        parsed == Some(address),
    ensures
        step is Continue,
        match request.external_port {
            Some(port) => stage == (Stage::Add {
                external_ip: address,
                external_port: port,
                lifetime_seconds: request.lifetime_seconds,
            }),
            None => if request.service is WanIpConnection2 {
                stage == (Stage::AddAny {
                    external_ip: address,
                    lifetime_seconds: request.lifetime_seconds,
                })
            } else {
                stage == (Stage::Add {
                    external_ip: address,
                    external_port: request.internal_port,
                    lifetime_seconds: request.lifetime_seconds,
                })
            },
        },
        options.lifetime_seconds matches Some(seconds) ==> MapRequest::requested_lifetime(options)
            == seconds,
        options.lifetime_seconds is None ==> MapRequest::requested_lifetime(options) == 2 * 60 * 60,
{
}

/// What a gateway accepts is granted: the external address that was read, the port that was asked
/// for or reserved, and the lifetime that was asked for.
pub proof fn law_accepted_mappings_are_granted(
    request: MapRequest,
    body: String,
    parsed: Option<IpAddr>,
    port: nat,
    stage: Stage,
    step: MapStep,
)
    requires
        request.is_next(Ok(body), parsed, stage, step),
    ensures
        request.stage matches Stage::Add { external_ip, external_port, lifetime_seconds } ==> (
        step matches MapStep::Granted(grant) && grant.external_port == external_port
            && grant.external_ip == external_ip && grant.lifetime_seconds == lifetime_seconds),
        request.stage matches Stage::AddAny { external_ip, lifetime_seconds } ==> (xml::tag_value(
            body@,
            "NewReservedPort"@,
        ) == Some(text::decimal(port)) && 0 < port < 65536 ==> (step matches MapStep::Granted(grant)
            && grant.external_port.spec_get() == port && grant.external_ip == external_ip
            && grant.lifetime_seconds == lifetime_seconds)),
        request.stage is AddAny && xml::tag_value(body@, "NewReservedPort"@) is None
            ==> step is Failed,
{
    if request.stage is AddAny {
        let reserved = choose|reserved: Result<NonZeroU16, Failure>|
            {
                &&& #[trigger] soap::is_reserved_port(body@, reserved)
                &&& stage == request.stage
                &&& match reserved {
                    Ok(p) => step matches MapStep::Granted(grant) && grant.external_port == p
                        && (request.stage matches Stage::AddAny { external_ip, lifetime_seconds }
                        && grant.external_ip == external_ip && grant.lifetime_seconds
                        == lifetime_seconds),
                    Err(e) => step == MapStep::Failed(e),
                }
            };
        soap::law_reserved_port_is_read(body@, port, reserved);
    }
}

/// A rejection of the lifetime, be it by the code for it or by the codes that firmware predating it
/// answers with, is followed by asking for a permanent mapping of the same port. A rejection of
/// letting the gateway choose a port is followed by asking for the internal port, with the lifetime
/// requested. Any other rejection ends the request with its failure, as does one of a permanent
/// mapping or of the external address.
pub proof fn law_rejections_are_retried(
    request: MapRequest,
    failure: Failure,
    parsed: Option<IpAddr>,
    stage: Stage,
    step: MapStep,
)
    requires
        request.is_next(Err(failure), parsed, stage, step),
    ensures
        ({
            let lifetime_rejected = failure is OnlyPermanentLeasesSupported || failure is InvalidArgs
                || failure is ActionFailed;
            let action_rejected = failure is InvalidAction
                || failure is OptionalActionNotImplemented;
            match request.stage {
                Stage::ExternalAddress => step == MapStep::Failed(failure),
                Stage::Add { external_ip, external_port, lifetime_seconds } => {
                    if lifetime_rejected && lifetime_seconds > 0 {
                        step is Continue && stage == (Stage::Add {
                            external_ip,
                            external_port,
                            lifetime_seconds: 0,
                        })
                    } else {
                        step == MapStep::Failed(failure)
                    }
                },
                Stage::AddAny { external_ip, lifetime_seconds } => {
                    if lifetime_rejected && lifetime_seconds > 0 {
                        step is Continue && stage == (Stage::AddAny {
                            external_ip,
                            lifetime_seconds: 0,
                        })
                    } else if action_rejected {
                        step is Continue && stage == (Stage::Add {
                            external_ip,
                            external_port: request.internal_port,
                            lifetime_seconds: request.lifetime_seconds,
                        })
                    } else {
                        step == MapStep::Failed(failure)
                    }
                },
            }
        }),
{
}

} // verus!
