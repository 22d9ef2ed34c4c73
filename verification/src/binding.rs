//! Binding a listener, including the UPnP event subscription it may need.
//!
//! A subscription takes several exchanges with the gateway, and waits for an initial event. An
//! `EventBinding` says what to do next, and takes what came of it.

use vstd::prelude::*;

use crate::address::{GatewayAddress, IpAddr, NonZeroU16, SocketAddr};
use crate::failures::{ListenerFailure, SocketError};
use crate::listener::{AddressChangeListener, ListenerView};
use crate::mapping::{PortMapping, PortMappingType};
use crate::options;
use crate::options::{tcp_timeout, upnp_config_or_default, TimeoutConfig};
use crate::time::{Duration, Instant};
use crate::upnp;
use crate::upnp::endpoint::{ControlEndpoint, EventUrl};
use crate::upnp::subscription::{EventSubscription, Notification};

verus! {

/// What came of waiting for the initial event of a subscription.
#[derive(Debug)]
pub enum CallbackEvent {
    /// No connection to the callback arrived in time.
    AcceptTimedOut,

    /// The callback itself failed.
    AcceptFailed(SocketError),

    /// A connection to the callback was accepted.
    Accepted {
        /// The address it came from.
        source: IpAddr,
    },

    /// A notification was read from the connection.
    Notified(Result<Notification, upnp::Failure>),

    /// No notification could be read from the connection in time.
    ReadTimedOut,
}

/// What follows while waiting for the initial event of a subscription.
#[derive(Debug)]
pub enum CallbackStep {
    /// Accept the next connection to the callback.
    Accept,

    /// Read a notification from the connection.
    Read,

    /// Release the subscription and report the failure.
    GiveUp(ListenerFailure),

    /// The initial event arrived.
    Ready {
        /// The external IP address of the gateway, if the event carried one.
        external_ip: Option<IpAddr>,
        /// The event sequence number, if the event carried one.
        seq: Option<u32>,
    },
}

/// What follows while waiting for the initial event of a subscription. Other connections, e.g.
/// the events of a previous subscription to the same callback port, do not prove that this
/// subscription's events can arrive.
pub open spec fn callback_next(
    gateway: GatewayAddress,
    event_url: EventUrl,
    event: CallbackEvent,
) -> CallbackStep {
    match event {
        CallbackEvent::AcceptTimedOut => CallbackStep::GiveUp(ListenerFailure::CallbackUnreachable),
        CallbackEvent::AcceptFailed(e) => CallbackStep::GiveUp(ListenerFailure::Socket(e)),
        CallbackEvent::Accepted { source } => if source == gateway.spec_ip() || source
            == event_url.address.spec_ip() {
            CallbackStep::Read
        } else {
            CallbackStep::Accept
        },
        CallbackEvent::Notified(Ok(Notification::Event { external_ip, seq })) => CallbackStep::Ready {
            external_ip,
            seq,
        },
        CallbackEvent::Notified(_) => CallbackStep::Accept,
        CallbackEvent::ReadTimedOut => CallbackStep::GiveUp(ListenerFailure::CallbackUnreachable),
    }
}

/// Take what came of waiting for the initial event of a subscription.
/// The architecture requires the gateway to immediately deliver an initial event with the
/// current variable states. Waiting for it both proves that the gateway can reach the
/// callback and provides the current external address to compare later events against.
pub fn await_initial_event(
    gateway: GatewayAddress,
    event_url: &EventUrl,
    event: CallbackEvent,
) -> (step: CallbackStep)
    ensures
        step == callback_next(gateway, *event_url, event),
{
    match event {
        // Without the initial event, later events would silently never arrive.
        CallbackEvent::AcceptTimedOut => CallbackStep::GiveUp(ListenerFailure::CallbackUnreachable),

        // The callback listener itself failing is fatal.
        CallbackEvent::AcceptFailed(e) => CallbackStep::GiveUp(ListenerFailure::Socket(e)),

        // Events may also be delivered from the address hosting the event URL.
        CallbackEvent::Accepted { source } => {
            if source == IpAddr::from(gateway) || source == event_url.address.ip() {
                CallbackStep::Read
            } else {
                CallbackStep::Accept
            }
        },
        CallbackEvent::Notified(Ok(Notification::Event { external_ip, seq })) => CallbackStep::Ready {
            external_ip,
            seq,
        },
        CallbackEvent::Notified(_) => CallbackStep::Accept,
        CallbackEvent::ReadTimedOut => CallbackStep::GiveUp(ListenerFailure::CallbackUnreachable),
    }
}

/// The address to host the callback on.
pub open spec fn callback_socket(client: IpAddr, callback_port: Option<NonZeroU16>) -> SocketAddr {
    let port = match callback_port {
        Some(port) => port.spec_get(),
        None => 0,
    };
    match client {
        IpAddr::V4(ip) => SocketAddr::V4 { ip, port },
        IpAddr::V6(ip) => SocketAddr::V6 { ip, port, scope_id: 0 },
    }
}

/// The address to host the callback on: our address as seen by the gateway, at the given port or
/// at any. Hosting the callback on an IPv6 link-local address is not supported, as no scope can
/// be given for it.
pub fn callback_address(client: IpAddr, callback_port: Option<NonZeroU16>) -> (address: SocketAddr)
    ensures
        address == callback_socket(client, callback_port),
        address.spec_ip() == client,
{
    let port: u16 = match callback_port {
        Some(port) => port.get(),
        None => 0,
    };
    match client {
        IpAddr::V4(ip) => SocketAddr::V4 { ip, port },
        IpAddr::V6(ip) => SocketAddr::V6 { ip, port, scope_id: 0 },
    }
}

/// How to listen for the address changes relevant to a mapping.
#[derive(Debug)]
pub enum MappingBinding {
    /// By the announcements of its gateway.
    Announcements,

    /// By the events of a control endpoint as well.
    Events {
        /// The control endpoint.
        endpoint: ControlEndpoint,
        /// Our address as seen by the gateway.
        client: IpAddr,
    },
}

/// How to listen for the address changes relevant to a mapping. Mappings made over UPnP already
/// know the control endpoint to subscribe to. UPnP gateways do not send the multicast
/// announcements of the other protocols.
pub fn binding_for(mapping: &PortMapping) -> (binding: MappingBinding)
    ensures
        binding == (match mapping@.mapping_type {
            PortMappingType::Upnp { client, endpoint } => MappingBinding::Events {
                endpoint,
                client,
            },
            _ => MappingBinding::Announcements,
        }),
{
    match mapping.mapping_type() {
        PortMappingType::Upnp { client, endpoint } => MappingBinding::Events { endpoint, client },
        _ => MappingBinding::Announcements,
    }
}

/// How far the binding of a listener with an event subscription has come.
#[derive(Debug)]
pub enum BindingStage {
    /// The announcement port is being bound.
    Announcements,

    /// The callback is being bound.
    Callback(AddressChangeListener),

    /// The events are being subscribed to.
    Subscribing(AddressChangeListener),

    /// The initial event is being waited for.
    Awaiting {
        /// The listener without the subscription.
        listener: AddressChangeListener,
        /// The subscription.
        subscription: EventSubscription,
        /// When waiting ends. Reading shares it, so that a stalled connection cannot extend the
        /// wait.
        deadline: Instant,
        /// Whether a connection to the callback is being read.
        reading: bool,
    },

    /// The subscription is being released after a failure.
    Releasing {
        /// The subscription.
        subscription: EventSubscription,
        /// The failure to report.
        failure: ListenerFailure,
    },

    /// The binding is over.
    Finished,
}

/// What happened to the binding of a listener.
#[derive(Debug)]
pub enum BindingEvent {
    /// The announcement port was bound, or not.
    Bound(Result<(), SocketError>),

    /// The callback was bound and its address is known, or not.
    CallbackBound(Result<(), SocketError>),

    /// The gateway answered the subscription.
    Subscribed(Result<EventSubscription, upnp::Failure>),

    /// Something came of waiting for the initial event.
    Callback(CallbackEvent),

    /// The subscription was released as far as possible.
    Released,
}

/// What the binding of a listener needs to be done.
#[derive(Debug)]
pub enum BindingAction {
    /// Bind the announcement port.
    BindAnnouncements,

    /// Bind the callback to an address.
    BindCallback(SocketAddr),

    /// Subscribe to the events.
    Subscribe,

    /// Accept a connection to the callback.
    Accept,

    /// Read a notification from the connection.
    Read,

    /// Release the subscription.
    Unsubscribe,

    /// Nothing more; this is the result.
    Done(Result<AddressChangeListener, ListenerFailure>),
}

/// The binding of a listener with a UPnP event subscription.
#[derive(Debug)]
pub struct EventBinding {
    /// The gateway to listen to.
    pub gateway: GatewayAddress,

    /// The URL to subscribe to.
    pub event_url: EventUrl,

    /// Our address as seen by the gateway.
    pub client: IpAddr,

    /// The port of the callback, if a fixed one is to be used.
    pub callback_port: Option<NonZeroU16>,

    /// The total timeout for TCP exchanges with the gateway.
    pub timeout: Duration,

    /// How far the binding has come.
    pub stage: BindingStage,
}

impl EventBinding {
    /// Start subscribing to the state change events of an already discovered UPnP control
    /// endpoint. The gateway delivers events by connecting to a callback server hosted on
    /// `client`, our address as seen by the gateway. A fixed `callback_port` may be given so that
    /// a host firewall rule can allow the gateway's connections, otherwise one is chosen.
    /// The announcement port is to be bound first.
    pub fn new(
        gateway: GatewayAddress,
        endpoint: &ControlEndpoint,
        client: IpAddr,
        callback_port: Option<NonZeroU16>,
        timeout_config: Option<TimeoutConfig>,
    ) -> (binding: Result<EventBinding, ListenerFailure>)
        ensures
            match endpoint.event_url {
                Some(event_url) => {
                    &&& binding is Ok
                    &&& binding->Ok_0.gateway == gateway
                    &&& binding->Ok_0.event_url == event_url
                    &&& binding->Ok_0.client == client
                    &&& binding->Ok_0.callback_port == callback_port
                    &&& binding->Ok_0.timeout.spec_nanos() == options::tcp_timeout_nanos(
                        options::upnp_config(timeout_config),
                    )
                    &&& binding->Ok_0.stage is Announcements
                },
                None => binding == Err::<EventBinding, _>(ListenerFailure::EventingUnsupported),
            },
    {
        match &endpoint.event_url {
            Some(event_url) => Ok(
                EventBinding {
                    gateway,
                    event_url: event_url.clone(),
                    client,
                    callback_port,
                    timeout: tcp_timeout(upnp_config_or_default(timeout_config)),
                    stage: BindingStage::Announcements,
                },
            ),
            None => Err(ListenerFailure::EventingUnsupported),
        }
    }

    /// Whether the binding is waiting for an event.
    pub open spec fn expects(self, event: BindingEvent) -> bool {
        match event {
            BindingEvent::Bound(_) => self.stage is Announcements,
            BindingEvent::CallbackBound(_) => self.stage is Callback,
            BindingEvent::Subscribed(_) => self.stage is Subscribing,
            BindingEvent::Callback(_) => self.stage is Awaiting,
            BindingEvent::Released => self.stage is Releasing,
        }
    }

    /// Whether the binding ends with a failure.
    pub open spec fn fails_with(
        stage: BindingStage,
        action: BindingAction,
        failure: ListenerFailure,
    ) -> bool {
        stage is Finished && action == BindingAction::Done(Err(failure))
    }

    /// Whether a stage and an action follow from what came of waiting for the initial event.
    pub open spec fn is_after_callback(
        self,
        event: CallbackEvent,
        now: Instant,
        stage: BindingStage,
        action: BindingAction,
    ) -> bool {
        match self.stage {
            BindingStage::Awaiting { listener, subscription, deadline, .. } => match callback_next(
                self.gateway,
                self.event_url,
                event,
            ) {
                CallbackStep::Accept => {
                    &&& action is Accept
                    &&& stage == (BindingStage::Awaiting {
                        listener,
                        subscription,
                        deadline,
                        reading: false,
                    })
                },
                CallbackStep::Read => {
                    &&& action is Read
                    &&& stage == (BindingStage::Awaiting {
                        listener,
                        subscription,
                        deadline,
                        reading: true,
                    })
                },
                CallbackStep::GiveUp(failure) => {
                    &&& action is Unsubscribe
                    &&& stage == (BindingStage::Releasing { subscription, failure })
                },
                CallbackStep::Ready { external_ip, seq } => {
                    &&& stage is Finished
                    &&& action matches BindingAction::Done(Ok(bound)) && bound@
                        == listener@.with_subscription(
                        subscription,
                        self.timeout,
                        external_ip,
                        seq,
                        now,
                    )
                },
            },
            _ => true,
        }
    }

    /// Whether a stage and an action follow from an event at the given time.
    pub open spec fn is_next(
        self,
        event: BindingEvent,
        now: Instant,
        stage: BindingStage,
        action: BindingAction,
    ) -> bool {
        match (self.stage, event) {
            (BindingStage::Announcements, BindingEvent::Bound(Err(e))) => EventBinding::fails_with(
                stage,
                action,
                ListenerFailure::Socket(e),
            ),
            (BindingStage::Announcements, BindingEvent::Bound(Ok(_))) => {
                &&& stage matches BindingStage::Callback(listener) && listener@
                    == ListenerView::fresh(self.gateway)
                &&& action == BindingAction::BindCallback(
                    callback_socket(self.client, self.callback_port),
                )
            },
            (BindingStage::Callback(_), BindingEvent::CallbackBound(Err(e))) => {
                EventBinding::fails_with(stage, action, ListenerFailure::Socket(e))
            },
            (BindingStage::Callback(listener), BindingEvent::CallbackBound(Ok(_))) => {
                stage == BindingStage::Subscribing(listener) && action is Subscribe
            },
            (BindingStage::Subscribing(_), BindingEvent::Subscribed(Err(e))) => {
                EventBinding::fails_with(stage, action, ListenerFailure::Upnp(e))
            },
            (BindingStage::Subscribing(listener), BindingEvent::Subscribed(Ok(subscription))) => {
                &&& action is Accept
                &&& stage matches BindingStage::Awaiting {
                    listener: l,
                    subscription: s,
                    deadline,
                    reading,
                } && l == listener && s == subscription && !reading && deadline.nanos == now.nanos
                    + self.timeout.spec_nanos()
            },
            (BindingStage::Awaiting { .. }, BindingEvent::Callback(callback)) => {
                self.is_after_callback(callback, now, stage, action)
            },
            (BindingStage::Releasing { failure, .. }, BindingEvent::Released) => {
                EventBinding::fails_with(stage, action, failure)
            },
            _ => true,
        }
    }

    /// The subscription that was made, if any.
    pub fn subscription(&self) -> (subscription: Option<&EventSubscription>)
        ensures
            match self.stage {
                BindingStage::Awaiting { subscription: s, .. } => subscription == Some(&s),
                BindingStage::Releasing { subscription: s, .. } => subscription == Some(&s),
                _ => subscription is None,
            },
    {
        match &self.stage {
            BindingStage::Awaiting { subscription, .. } => Some(subscription),
            BindingStage::Releasing { subscription, .. } => Some(subscription),
            _ => None,
        }
    }

    /// When waiting for the initial event ends.
    pub fn deadline(&self) -> (deadline: Option<Instant>)
        ensures
            deadline == (match self.stage {
                BindingStage::Awaiting { deadline: d, .. } => Some(d),
                _ => None,
            }),
    {
        match &self.stage {
            BindingStage::Awaiting { deadline, .. } => Some(*deadline),
            _ => None,
        }
    }

    /// Takes what happened at the given time, and says what to do next.
    pub fn step(&mut self, event: BindingEvent, now: Instant) -> (action: BindingAction)
        requires
            old(self).expects(event),
            now.is_early(),
        ensures
            old(self).is_next(event, now, final(self).stage, action),
            *final(self) == (EventBinding { stage: final(self).stage, ..*old(self) }),
    {
        let mut stage = BindingStage::Finished;
        std::mem::swap(&mut stage, &mut self.stage);
        match (stage, event) {
            (BindingStage::Announcements, BindingEvent::Bound(bound)) => {
                match AddressChangeListener::bind(self.gateway, bound) {
                    Ok(listener) => {
                        self.stage = BindingStage::Callback(listener);
                        BindingAction::BindCallback(
                            callback_address(self.client, self.callback_port),
                        )
                    },
                    Err(e) => BindingAction::Done(Err(e)),
                }
            },
            (BindingStage::Callback(listener), BindingEvent::CallbackBound(bound)) => {
                match bound {
                    Ok(_) => {
                        self.stage = BindingStage::Subscribing(listener);
                        BindingAction::Subscribe
                    },
                    Err(e) => BindingAction::Done(Err(ListenerFailure::Socket(e))),
                }
            },
            (BindingStage::Subscribing(listener), BindingEvent::Subscribed(subscribed)) => {
                match subscribed {
                    Ok(subscription) => {
                        self.stage = BindingStage::Awaiting {
                            listener,
                            subscription,
                            deadline: now.after(self.timeout),
                            reading: false,
                        };
                        BindingAction::Accept
                    },
                    Err(e) => BindingAction::Done(Err(ListenerFailure::from(e))),
                }
            },
            (
                BindingStage::Awaiting { listener, subscription, deadline, .. },
                BindingEvent::Callback(callback),
            ) => {
                match await_initial_event(self.gateway, &self.event_url, callback) {
                    CallbackStep::Accept => {
                        self.stage = BindingStage::Awaiting {
                            listener,
                            subscription,
                            deadline,
                            reading: false,
                        };
                        BindingAction::Accept
                    },
                    CallbackStep::Read => {
                        self.stage = BindingStage::Awaiting {
                            listener,
                            subscription,
                            deadline,
                            reading: true,
                        };
                        BindingAction::Read
                    },
                    CallbackStep::GiveUp(failure) => {
                        self.stage = BindingStage::Releasing { subscription, failure };
                        BindingAction::Unsubscribe
                    },
                    CallbackStep::Ready { external_ip, seq } => BindingAction::Done(
                        Ok(
                            listener.bind_with_endpoint(
                                subscription,
                                self.timeout,
                                external_ip,
                                seq,
                                now,
                            ),
                        ),
                    ),
                }
            },
            (BindingStage::Releasing { failure, .. }, _) => BindingAction::Done(Err(failure)),
            _ => BindingAction::Done(Err(ListenerFailure::CallbackUnreachable)),
        }
    }
}

/// A listener with a subscription is bound only when the initial event arrived, and a binding that
/// fails after the gateway accepted the subscription releases it first.
pub proof fn law_binding_needs_initial_event(
    binding: EventBinding,
    event: BindingEvent,
    now: Instant,
    stage: BindingStage,
    action: BindingAction,
)
    requires
        binding.expects(event),
        binding.is_next(event, now, stage, action),
    ensures
        action matches BindingAction::Done(Ok(_)) ==> binding.stage is Awaiting && (event matches
            BindingEvent::Callback(CallbackEvent::Notified(Ok(Notification::Event { .. })))),
        action matches BindingAction::Done(Err(_)) ==> !(binding.stage is Awaiting),
        stage is Releasing <==> action is Unsubscribe,
{
}

/// While the initial event is waited for, connections from the gateway and from the address of the
/// event URL are read, and others are passed over. What was read is the initial event if it is one
/// of the subscription. Waiting too long, or a callback that fails, ends the binding.
pub proof fn law_initial_event_is_waited_for(
    gateway: GatewayAddress,
    event_url: EventUrl,
    source: IpAddr,
    external_ip: Option<IpAddr>,
    seq: Option<u32>,
    failure: upnp::Failure,
    error: SocketError,
)
    ensures
        callback_next(gateway, event_url, CallbackEvent::Accepted { source }) is Read <==> source
            == gateway.spec_ip() || source == event_url.address.spec_ip(),
        callback_next(gateway, event_url, CallbackEvent::Accepted { source }) is Read
            || callback_next(gateway, event_url, CallbackEvent::Accepted { source }) is Accept,
        callback_next(
            gateway,
            event_url,
            CallbackEvent::Notified(Ok(Notification::Event { external_ip, seq })),
        ) == (CallbackStep::Ready { external_ip, seq }),
        callback_next(
            gateway,
            event_url,
            CallbackEvent::Notified(Ok(Notification::NotOurs)),
        ) is Accept,
        callback_next(gateway, event_url, CallbackEvent::Notified(Err(failure))) is Accept,
        callback_next(gateway, event_url, CallbackEvent::AcceptTimedOut) == CallbackStep::GiveUp(
            ListenerFailure::CallbackUnreachable,
        ),
        callback_next(gateway, event_url, CallbackEvent::ReadTimedOut) == CallbackStep::GiveUp(
            ListenerFailure::CallbackUnreachable,
        ),
        callback_next(gateway, event_url, CallbackEvent::AcceptFailed(error))
            == CallbackStep::GiveUp(ListenerFailure::Socket(error)),
{
}

/// The callback is hosted at the address of the client, at the port asked for or at any.
pub proof fn law_callback_is_at_the_client(client: IpAddr, callback_port: Option<NonZeroU16>)
    ensures
        callback_socket(client, callback_port).spec_ip() == client,
        callback_port matches Some(port) ==> callback_socket(client, callback_port).spec_port()
            == port.spec_get(),
        callback_port is None ==> callback_socket(client, callback_port).spec_port() == 0,
{
}

/// A bound listener begins with what the initial event said, and each step of the binding follows
/// the one before: the announcement port, the callback, the subscription, the initial event.
pub proof fn law_binding_takes_its_steps(
    binding: EventBinding,
    event: BindingEvent,
    now: Instant,
    stage: BindingStage,
    action: BindingAction,
)
    requires
        binding.expects(event),
        binding.is_next(event, now, stage, action),
    ensures
        event matches BindingEvent::Bound(Ok(_)) ==> (action matches BindingAction::BindCallback(
            address,
        ) && address.spec_ip() == binding.client && stage is Callback),
        event matches BindingEvent::CallbackBound(Ok(_)) ==> action is Subscribe
            && stage is Subscribing,
        event matches BindingEvent::Subscribed(Ok(subscription)) ==> action is Accept && (
        stage matches BindingStage::Awaiting { subscription: s, deadline, .. } && s == subscription
            && deadline.nanos == now.nanos + binding.timeout.spec_nanos()),
        event matches BindingEvent::Bound(Err(e)) ==> action == BindingAction::Done(
            Err(ListenerFailure::Socket(e)),
        ),
        event matches BindingEvent::CallbackBound(Err(e)) ==> action == BindingAction::Done(
            Err(ListenerFailure::Socket(e)),
        ),
        event matches BindingEvent::Subscribed(Err(e)) ==> action == BindingAction::Done(
            Err(ListenerFailure::Upnp(e)),
        ),
        event is Released ==> (binding.stage matches BindingStage::Releasing { failure, .. }
            && action == BindingAction::Done(Err(failure))),
        binding.stage matches BindingStage::Awaiting { listener, subscription, .. } ==> (
        event matches BindingEvent::Callback(
            CallbackEvent::Notified(Ok(Notification::Event { external_ip, seq })),
        ) ==> (action matches BindingAction::Done(Ok(bound)) && {
            &&& bound@.pending == listener@.pending
            &&& external_ip is Some ==> bound@.last_address == external_ip
            &&& bound@.upnp_events matches Some(events) && events.subscription == subscription
                && events.timeout == binding.timeout
        })),
{
}

} // verus!
