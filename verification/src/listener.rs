//! Listening for changes of a gateway's external address.
//!
//! NAT-PMP and PCP servers announce changes over multicast. UPnP gateways deliver state change
//! events to subscribers. A listener takes what arrives, and says what to do next.

use std::collections::VecDeque;

use vstd::prelude::*;

use crate::address::{GatewayAddress, IpAddr, Ipv4Addr};
use crate::failures::{ListenerFailure, SocketError};
use crate::mapping::{PortMapping, PortMappingType, PortMappingView};
use crate::natpmp;
use crate::time::{Duration, Instant, NANOS_PER_SECOND};
use crate::upnp;
use crate::upnp::endpoint::ControlEndpoint;
use crate::upnp::subscription::{EventSubscription, Notification};

verus! {

/// A change to the gateway state observed by an `AddressChangeListener`.
#[derive(Clone, Copy, Debug, PartialEq, Eq, Structural)]
pub enum AddressChange {
    /// The gateway announced a new external IP address.
    /// An unspecified address means the gateway lost its external connectivity.
    NewAddress(IpAddr),

    /// The gateway epoch was inconsistent with the passage of time, meaning the gateway
    /// likely rebooted and lost its state. Existing mappings should be renewed, which also
    /// refreshes their external addresses.
    GatewayReset {
        /// The gateway epoch time of the announcement.
        epoch_seconds: u32,
    },
}

/// The sequence number expected after the given one.
pub open spec fn next_in_sequence(seq: u32) -> u32 {
    if seq == u32::MAX {
        1
    } else {
        (seq + 1) as u32
    }
}

/// The sequence number expected after the given one; event sequences wrap to `1`, not `0`.
pub fn following_seq(seq: u32) -> (next: u32)
    ensures
        next == next_in_sequence(seq),
{
    if seq == u32::MAX {
        1
    } else {
        seq + 1
    }
}

/// Only the initial event has the sequence number zero: none follows another with it.
pub proof fn law_sequence_skips_zero(seq: u32)
    ensures
        next_in_sequence(seq) != 0,
        next_in_sequence(seq) != seq,
{
}

/// State of a UPnP event subscription held by an `AddressChangeListener`.
#[derive(Debug)]
pub struct UpnpEvents {
    /// The active subscription on the gateway's WAN connection service.
    pub subscription: EventSubscription,

    /// When to renew the subscription, halfway through its timeout.
    pub renew_at: Instant,

    /// The total timeout for TCP exchanges with the gateway.
    pub timeout: Duration,

    /// The sequence number the next event is expected to carry, used to detect lost events.
    pub next_seq: Option<u32>,
}

/// When a subscription made or renewed at the given time is to be renewed: halfway through its
/// timeout, but no sooner than after a second.
pub open spec fn renewal_time(now: Instant, timeout_seconds: u32) -> Instant {
    Instant {
        nanos: (now.nanos + (if timeout_seconds / 2 > 1 {
            timeout_seconds / 2
        } else {
            1
        }) * NANOS_PER_SECOND) as u128,
    }
}

/// When a subscription made or renewed at the given time is to be renewed.
fn renew_at(now: Instant, timeout_seconds: u32) -> (time: Instant)
    requires
        now.is_early(),
    ensures
        time == renewal_time(now, timeout_seconds),
{
    let seconds: u32 = if timeout_seconds / 2 > 1 {
        timeout_seconds / 2
    } else {
        1
    };
    now.after(Duration::from_secs(seconds as u64))
}

/// The number of nanoseconds by which the next attempt is delayed after a subscription could not
/// be re-established.
pub const RESUBSCRIBE_DELAY_NANOS: u128 = 60_000_000_000;

/// What a listener is in the middle of.
#[derive(Clone, Copy, Debug, PartialEq, Eq, Structural)]
pub enum ListenerStage {
    /// Nothing; it waits for a message.
    Idle,

    /// Reading a notification from a callback connection.
    Reading,

    /// Renewing its subscription.
    Renewing,

    /// Replacing its subscription.
    Resubscribing {
        /// Whether the subscription is replaced because it could not be renewed.
        lapsed: bool,
    },
}

/// What happened to a listener.
#[derive(Debug)]
pub enum ListenerEvent {
    /// A datagram arrived on the announcement socket.
    Announcement {
        /// The address it came from.
        source: IpAddr,
        /// The external address and epoch time, if it is a NAT-PMP announcement.
        natpmp: Option<(Ipv4Addr, u32)>,
        /// The epoch time, if it is a PCP announcement.
        pcp: Option<u32>,
        /// Whether the announced epoch time is consistent with the previous observation.
        consistent: bool,
    },

    /// A connection to the callback was accepted.
    Connection {
        /// The address it came from.
        source: IpAddr,
    },

    /// A notification was read from a callback connection.
    Notified(Result<Notification, upnp::Failure>),

    /// The time to renew the subscription came.
    RenewalDue,

    /// The request to renew the subscription was made.
    Renewed(Result<u32, upnp::Failure>),

    /// The subscription was released and the request for a new one was made.
    Resubscribed(Result<EventSubscription, ListenerFailure>),

    /// A socket failed.
    SocketFailed(SocketError),
}

/// What a listener needs to be done.
#[derive(Debug)]
pub enum ListenerAction {
    /// Report a change.
    Report(AddressChange),

    /// Wait for a datagram, a callback connection, or the time to renew the subscription.
    Wait,

    /// Read a notification for the subscription from the callback connection.
    Read,

    /// Renew the subscription.
    Renew,

    /// Release the subscription, which may still be active, and make a new one.
    Resubscribe,

    /// Report a failure.
    Fail(ListenerFailure),
}

/// The state of a listener.
pub struct ListenerView {
    pub gateway: GatewayAddress,
    pub upnp_events: Option<UpnpEvents>,
    pub last_address: Option<IpAddr>,
    pub last_epoch: Option<(Instant, u32)>,
    pub pending: Seq<AddressChange>,
    pub stage: ListenerStage,
}

/// The epoch time that a datagram announces. A NAT-PMP announcement takes precedence.
pub open spec fn epoch_announced(natpmp: Option<(Ipv4Addr, u32)>, pcp: Option<u32>) -> Option<u32> {
    match natpmp {
        Some((_, epoch_seconds)) => Some(epoch_seconds),
        None => pcp,
    }
}

/// The epoch time that a datagram announces. A NAT-PMP announcement takes precedence.
pub fn announced_epoch(natpmp: Option<(Ipv4Addr, u32)>, pcp: Option<u32>) -> (epoch_seconds: Option<
    u32,
>)
    ensures
        epoch_seconds == epoch_announced(natpmp, pcp),
{
    match natpmp {
        Some((_, epoch_seconds)) => Some(epoch_seconds),
        None => pcp,
    }
}

impl ListenerView {
    /// A listener which has not observed anything.
    pub open spec fn fresh(gateway: GatewayAddress) -> ListenerView {
        ListenerView {
            gateway,
            upnp_events: None,
            last_address: None,
            last_epoch: None,
            pending: seq![],
            stage: ListenerStage::Idle,
        }
    }

    /// The state after an address was observed. An unchanged address is no change.
    pub open spec fn with_address(self, address: IpAddr) -> ListenerView {
        if self.last_address == Some(address) {
            self
        } else {
            ListenerView {
                last_address: Some(address),
                pending: self.pending.push(AddressChange::NewAddress(address)),
                ..self
            }
        }
    }

    /// The state after an epoch time was observed. An inconsistent one is a reset of the gateway;
    /// consistent ones, e.g. the repeated announcements gateways send, are absorbed.
    pub open spec fn with_epoch(
        self,
        epoch_seconds: u32,
        consistent: bool,
        now: Instant,
    ) -> ListenerView {
        ListenerView {
            last_epoch: Some((now, epoch_seconds)),
            pending: if self.last_epoch is Some && !consistent {
                self.pending.push(AddressChange::GatewayReset { epoch_seconds })
            } else {
                self.pending
            },
            ..self
        }
    }

    /// The state after an announcement of the gateway.
    pub open spec fn with_announcement(
        self,
        natpmp: Option<(Ipv4Addr, u32)>,
        pcp: Option<u32>,
        consistent: bool,
        now: Instant,
    ) -> ListenerView {
        match natpmp {
            Some((address, epoch_seconds)) => self.with_epoch(
                epoch_seconds,
                consistent,
                now,
            ).with_address(IpAddr::V4(address)),
            None => match pcp {
                Some(epoch_seconds) => self.with_epoch(epoch_seconds, consistent, now),
                None => self,
            },
        }
    }

    /// The state with a subscription, whose initial event arrived at the given time.
    pub open spec fn with_subscription(
        self,
        subscription: EventSubscription,
        timeout: Duration,
        external_ip: Option<IpAddr>,
        seq: Option<u32>,
        now: Instant,
    ) -> ListenerView {
        ListenerView {
            upnp_events: Some(
                UpnpEvents {
                    subscription,
                    renew_at: renewal_time(now, subscription.timeout_seconds),
                    timeout,
                    next_seq: match seq {
                        Some(n) => Some(next_in_sequence(n)),
                        None => None,
                    },
                },
            ),
            last_address: match external_ip {
                Some(address) => Some(address),
                None => self.last_address,
            },
            ..self
        }
    }

    /// The state for the address changes relevant to a mapping. The address that the mapping knows
    /// is no change. One of an initial event which differs from it is a change.
    pub open spec fn for_mapping(self, mapping: PortMappingView) -> ListenerView {
        match mapping.mapping_type {
            PortMappingType::Upnp { .. } => match self.last_address {
                Some(current) => if current != mapping.external_ip {
                    ListenerView {
                        pending: self.pending.push(AddressChange::NewAddress(current)),
                        ..self
                    }
                } else {
                    self
                },
                None => ListenerView { last_address: Some(mapping.external_ip), ..self },
            },
            _ => ListenerView {
                last_epoch: Some(
                    (
                        Instant {
                            nanos: (mapping.expiration.nanos - mapping.lifetime_seconds
                                * NANOS_PER_SECOND) as u128,
                        },
                        mapping.gateway_epoch_seconds,
                    ),
                ),
                last_address: Some(mapping.external_ip),
                ..self
            },
        }
    }

    /// Whether a connection may deliver events: those of the gateway, or of the address hosting
    /// the event URL.
    pub open spec fn delivers_events(self, source: IpAddr) -> bool {
        source == self.gateway.spec_ip() || (self.upnp_events matches Some(events) && source
            == events.subscription.url.address.spec_ip())
    }

    /// Reporting the next change, or waiting if there is none.
    pub open spec fn proceeding(self) -> (ListenerView, ListenerAction) {
        if self.pending.len() > 0 {
            (
                ListenerView {
                    pending: self.pending.drop_first(),
                    stage: ListenerStage::Idle,
                    ..self
                },
                ListenerAction::Report(self.pending[0]),
            )
        } else {
            (ListenerView { stage: ListenerStage::Idle, ..self }, ListenerAction::Wait)
        }
    }

    /// Whether a sequence number shows that events were lost.
    pub open spec fn shows_gap(self, seq: Option<u32>) -> bool {
        seq matches Some(n) && self.upnp_events matches Some(events) && events.next_seq matches Some(
            expected,
        ) && n != expected
    }

    /// The state after an event of the subscription which shows no gap.
    pub open spec fn with_event(self, external_ip: Option<IpAddr>, seq: Option<u32>) -> ListenerView {
        let numbered = match (self.upnp_events, seq) {
            (Some(events), Some(n)) => ListenerView {
                upnp_events: Some(UpnpEvents { next_seq: Some(next_in_sequence(n)), ..events }),
                ..self
            },
            _ => self,
        };
        match external_ip {
            Some(address) => numbered.with_address(address),
            None => numbered,
        }
    }

    /// Whether the listener is waiting for an event.
    pub open spec fn expects(self, event: ListenerEvent) -> bool {
        match event {
            ListenerEvent::Announcement { .. } => self.stage is Idle,
            ListenerEvent::Connection { .. } => self.stage is Idle && self.upnp_events is Some,
            ListenerEvent::RenewalDue => self.stage is Idle && self.upnp_events is Some,
            ListenerEvent::SocketFailed(_) => self.stage is Idle,
            ListenerEvent::Notified(_) => self.stage is Reading && self.upnp_events is Some,
            ListenerEvent::Renewed(_) => self.stage is Renewing && self.upnp_events is Some,
            ListenerEvent::Resubscribed(_) => self.stage is Resubscribing && self.upnp_events is Some,
        }
    }

    /// The state after an event at the given time, and what is to be done next.
    pub open spec fn next(self, event: ListenerEvent, now: Instant) -> (
        ListenerView,
        ListenerAction,
    ) {
        match event {
            ListenerEvent::Announcement { source, natpmp, pcp, consistent } => if source
                == self.gateway.spec_ip() {
                self.with_announcement(natpmp, pcp, consistent, now).proceeding()
            } else {
                self.proceeding()
            },
            ListenerEvent::Connection { source } => if self.delivers_events(source) {
                (ListenerView { stage: ListenerStage::Reading, ..self }, ListenerAction::Read)
            } else {
                self.proceeding()
            },
            ListenerEvent::Notified(Ok(Notification::Event { external_ip, seq })) => if self.shows_gap(
                seq,
            ) {
                (
                    ListenerView {
                        stage: ListenerStage::Resubscribing { lapsed: false },
                        ..self
                    },
                    ListenerAction::Resubscribe,
                )
            } else {
                self.with_event(external_ip, seq).proceeding()
            },
            ListenerEvent::Notified(_) => self.proceeding(),
            ListenerEvent::RenewalDue => (
                ListenerView { stage: ListenerStage::Renewing, ..self },
                ListenerAction::Renew,
            ),
            ListenerEvent::Renewed(Ok(timeout_seconds)) => ListenerView {
                upnp_events: match self.upnp_events {
                    Some(events) => Some(
                        UpnpEvents {
                            subscription: EventSubscription {
                                timeout_seconds,
                                ..events.subscription
                            },
                            renew_at: renewal_time(now, timeout_seconds),
                            ..events
                        },
                    ),
                    None => None,
                },
                ..self
            }.proceeding(),
            ListenerEvent::Renewed(Err(_)) => (
                ListenerView { stage: ListenerStage::Resubscribing { lapsed: true }, ..self },
                ListenerAction::Resubscribe,
            ),
            ListenerEvent::Resubscribed(Ok(subscription)) => ListenerView {
                upnp_events: match self.upnp_events {
                    Some(events) => Some(
                        UpnpEvents {
                            subscription,
                            renew_at: renewal_time(now, subscription.timeout_seconds),
                            next_seq: None,
                            ..events
                        },
                    ),
                    None => None,
                },
                ..self
            }.proceeding(),
            ListenerEvent::Resubscribed(Err(e)) => (
                ListenerView {
                    upnp_events: match (self.upnp_events, self.stage) {
                        (
                            Some(events),
                            ListenerStage::Resubscribing { lapsed: true },
                        ) => Some(
                            UpnpEvents {
                                renew_at: Instant {
                                    nanos: (now.nanos + RESUBSCRIBE_DELAY_NANOS) as u128,
                                },
                                ..events
                            },
                        ),
                        (events, _) => events,
                    },
                    stage: ListenerStage::Idle,
                    ..self
                },
                ListenerAction::Fail(e),
            ),
            ListenerEvent::SocketFailed(e) => (
                self,
                ListenerAction::Fail(ListenerFailure::Socket(e)),
            ),
        }
    }
}

/// Listens for external address changes announced by the gateway.
/// NAT-PMP and PCP servers announce changes over multicast, which `bind` listens for.
/// UPnP gateways deliver state change events to subscribers, which `bind_with_upnp` adds.
/// # Notes
/// The announcements arrive as unsolicited inbound traffic, so host firewalls must permit
/// them.
///
/// Even without a listener, a stale external address is corrected whenever a mapping
/// is renewed, see `PortMapping::renew`.
#[derive(Debug)]
pub struct AddressChangeListener {
    /// The gateway being listened to. Messages from other sources are ignored.
    gateway: GatewayAddress,

    /// The UPnP event subscription, if one was made.
    upnp_events: Option<UpnpEvents>,

    /// The most recently observed external address, used to suppress repeated announcements.
    last_address: Option<IpAddr>,

    /// The most recent gateway epoch observation, used to detect state resets.
    last_epoch: Option<(Instant, u32)>,

    /// Changes waiting to be reported; a single message can produce more than one.
    pending: VecDeque<AddressChange>,

    /// What the listener is in the middle of.
    stage: ListenerStage,
}

impl View for AddressChangeListener {
    type V = ListenerView;

    closed spec fn view(&self) -> ListenerView {
        ListenerView {
            gateway: self.gateway,
            upnp_events: self.upnp_events,
            last_address: self.last_address,
            last_epoch: self.last_epoch,
            pending: self.pending@,
            stage: self.stage,
        }
    }
}

impl AddressChangeListener {
    /// Listens for the multicast address change announcements of NAT-PMP and PCP servers.
    /// `bound` says whether the announcement port could be bound.
    pub fn bind(gateway: GatewayAddress, bound: Result<(), SocketError>) -> (listener: Result<
        AddressChangeListener,
        ListenerFailure,
    >)
        ensures
            match bound {
                Ok(_) => listener is Ok && listener->Ok_0@ == ListenerView::fresh(gateway),
                Err(e) => listener == Err::<AddressChangeListener, _>(ListenerFailure::Socket(e)),
            },
    {
        match bound {
            Ok(_) => Ok(
                AddressChangeListener {
                    gateway,
                    upnp_events: None,
                    last_address: None,
                    last_epoch: None,
                    pending: VecDeque::new(),
                    stage: ListenerStage::Idle,
                },
            ),
            Err(e) => Err(ListenerFailure::Socket(e)),
        }
    }

    /// Adds a UPnP event subscription, whose initial event arrived at the given time, to a
    /// listener.
    pub fn bind_with_endpoint(
        self,
        subscription: EventSubscription,
        timeout: Duration,
        external_ip: Option<IpAddr>,
        seq: Option<u32>,
        now: Instant,
    ) -> (listener: AddressChangeListener)
        requires
            now.is_early(),
        ensures
            listener@ == self@.with_subscription(subscription, timeout, external_ip, seq, now),
    {
        let renew_time = renew_at(now, subscription.timeout_seconds);
        AddressChangeListener {
            gateway: self.gateway,
            upnp_events: Some(
                UpnpEvents {
                    subscription,
                    renew_at: renew_time,
                    timeout,
                    next_seq: match seq {
                        Some(n) => Some(following_seq(n)),
                        None => None,
                    },
                },
            ),
            last_address: match external_ip {
                Some(address) => Some(address),
                None => self.last_address,
            },
            last_epoch: self.last_epoch,
            pending: self.pending,
            stage: self.stage,
        }
    }

    /// The control endpoint to subscribe to at a gateway, given the outcome of the discovery.
    pub fn bind_with_upnp(discovery: Result<ControlEndpoint, upnp::Failure>) -> (endpoint: Result<
        ControlEndpoint,
        ListenerFailure,
    >)
        ensures
            endpoint == (match discovery {
                Ok(found) => Ok::<_, ListenerFailure>(found),
                Err(e) => Err(ListenerFailure::Upnp(e)),
            }),
    {
        match discovery {
            Ok(found) => Ok(found),
            Err(e) => Err(ListenerFailure::from(e)),
        }
    }

    /// Makes a listener report the address changes relevant to an existing port mapping.
    /// Mappings made over UPnP need a listener with an event subscription to their control
    /// endpoint, since UPnP gateways do not send the multicast announcements of the other
    /// protocols.
    pub fn bind_for_mapping(self, mapping: &PortMapping) -> (listener: AddressChangeListener)
        requires
            mapping.wf(),
        ensures
            listener@ == self@.for_mapping(mapping@),
    {
        let mut listener = self;
        match mapping.mapping_type() {
            // The initial event carried the current address; differing from the one the
            // mapping knows means it changed before the listener was bound. Report it,
            // as the gateway will not send another event for it.
            PortMappingType::Upnp { .. } => match listener.last_address {
                Some(current) => {
                    if current != mapping.external_ip() {
                        listener.pending.push_back(AddressChange::NewAddress(current));
                    }
                },
                None => {
                    listener.last_address = Some(mapping.external_ip());
                },
            },
            _ => {
                // Seed the epoch check with the mapping's observation so that a reset
                // since the mapping was created is still detected.
                let lifetime = Duration::from_secs(mapping.lifetime() as u64);
                let created_at = mapping.expiration().before(lifetime);
                listener.last_epoch = Some((created_at, mapping.gateway_epoch()));

                // Announcements of the address the mapping already knows are not changes.
                listener.last_address = Some(mapping.external_ip());
            },
        }
        listener
    }

    /// Takes the external address and epoch time that the gateway reported in answer to one
    /// stateless request, which reports changes from before the listener was bound.
    /// Announcements only cover those for a couple of minutes. The epoch detects resets even when
    /// the gateway re-acquired the same address. The IPv4 address is only meaningful for mappings
    /// with an IPv4 external address. A request without an answer changes nothing.
    pub fn observe_report(
        &mut self,
        mapping: &PortMapping,
        reported: Result<(Ipv4Addr, u32), natpmp::Failure>,
        consistent: bool,
        now: Instant,
    )
        ensures
            final(self)@ == (match reported {
                Ok((external_ip, epoch_seconds)) => if mapping@.external_ip is V4 {
                    old(self)@.with_epoch(epoch_seconds, consistent, now).with_address(
                        IpAddr::V4(external_ip),
                    )
                } else {
                    old(self)@.with_epoch(epoch_seconds, consistent, now)
                },
                Err(_) => old(self)@,
            }),
    {
        match reported {
            Ok((external_ip, epoch_seconds)) => {
                self.observe_epoch(epoch_seconds, consistent, now);
                if mapping.external_ip().is_ipv4() {
                    self.observe_address(IpAddr::V4(external_ip));
                }
            },
            Err(_) => {},
        }
    }

    /// Queue a new address observation, suppressing announcements of an unchanged address.
    pub fn observe_address(&mut self, address: IpAddr)
        ensures
            final(self)@ == old(self)@.with_address(address),
    {
        let unchanged = match self.last_address {
            Some(last) => last == address,
            None => false,
        };
        if !unchanged {
            self.last_address = Some(address);
            self.pending.push_back(AddressChange::NewAddress(address));
        }
    }

    /// The number of seconds since the previous epoch observation and the epoch time it saw, which
    /// an epoch time observed now has to be consistent with.
    pub fn previous_epoch(&self, now: Instant) -> (previous: Option<(u128, u32)>)
        ensures
            previous == (match self@.last_epoch {
                Some((observed_at, epoch_seconds)) => Some(
                    (
                        (now.nanos_since(observed_at) / (NANOS_PER_SECOND as nat)) as u128,
                        epoch_seconds,
                    ),
                ),
                None => None,
            }),
    {
        match self.last_epoch {
            Some((observed_at, epoch_seconds)) => Some(
                (now.since(observed_at) / NANOS_PER_SECOND, epoch_seconds),
            ),
            None => None,
        }
    }

    /// Queue a gateway reset if an observed epoch is inconsistent with the previous observation.
    /// Consistent observations, e.g. the repeated announcements gateways send, are absorbed.
    pub fn observe_epoch(&mut self, epoch_seconds: u32, consistent: bool, now: Instant)
        ensures
            final(self)@ == old(self)@.with_epoch(epoch_seconds, consistent, now),
    {
        if self.last_epoch.is_some() && !consistent {
            self.pending.push_back(AddressChange::GatewayReset { epoch_seconds });
        }
        self.last_epoch = Some((now, epoch_seconds));
    }

    /// The UPnP event subscription, if one was made.
    pub fn events(&self) -> (events: Option<&UpnpEvents>)
        ensures
            match events {
                Some(e) => self@.upnp_events == Some(*e),
                None => self@.upnp_events is None,
            },
    {
        match &self.upnp_events {
            Some(events) => Some(events),
            None => None,
        }
    }

    /// Says what to do to receive the next address change announced by the gateway: report a
    /// change which is waiting, or wait for one.
    /// # Notes
    /// UPnP event subscriptions are also renewed while changes are received, so receiving should
    /// be kept going, rather than done sporadically.
    pub fn recv(&mut self) -> (action: ListenerAction)
        ensures
            (final(self)@, action) == old(self)@.proceeding(),
    {
        self.stage = ListenerStage::Idle;
        match self.pending.pop_front() {
            Some(change) => {
                assert(self@.pending =~= old(self)@.pending.drop_first());
                ListenerAction::Report(change)
            },
            None => ListenerAction::Wait,
        }
    }

    /// Whether a connection may deliver events.
    fn accepts(&self, source: IpAddr) -> (accepted: bool)
        ensures
            accepted == self@.delivers_events(source),
    {
        if source == IpAddr::from(self.gateway) {
            return true;
        }
        match &self.upnp_events {
            Some(events) => source == events.subscription.url.address.ip(),
            None => false,
        }
    }

    /// Whether a sequence number shows that events were lost.
    fn detects_gap(&self, seq: Option<u32>) -> (gap: bool)
        ensures
            gap == self@.shows_gap(seq),
    {
        match (seq, &self.upnp_events) {
            (Some(n), Some(events)) => match events.next_seq {
                Some(expected) => n != expected,
                None => false,
            },
            _ => false,
        }
    }

    /// Takes an event of the subscription which shows no gap.
    fn take_event(&mut self, external_ip: Option<IpAddr>, seq: Option<u32>)
        ensures
            final(self)@ == old(self)@.with_event(external_ip, seq),
    {
        match self.upnp_events.take() {
            Some(events) => {
                self.upnp_events = Some(
                    UpnpEvents {
                        subscription: events.subscription,
                        renew_at: events.renew_at,
                        timeout: events.timeout,
                        next_seq: match seq {
                            Some(n) => Some(following_seq(n)),
                            None => events.next_seq,
                        },
                    },
                );
            },
            None => {},
        }
        match external_ip {
            Some(address) => {
                self.observe_address(address);
            },
            None => {},
        }
    }

    /// Takes the outcome of replacing a lapsed or desynchronized subscription with a fresh one.
    /// The new subscription's initial event arrives through the normal callback path.
    fn resubscribe(
        &mut self,
        outcome: Result<EventSubscription, ListenerFailure>,
        lapsed: bool,
        now: Instant,
    ) -> (action: ListenerAction)
        requires
            now.is_early(),
            old(self)@.stage == (ListenerStage::Resubscribing { lapsed }),
        ensures
            (final(self)@, action) == old(self)@.next(ListenerEvent::Resubscribed(outcome), now),
    {
        let held = self.upnp_events.take();
        match outcome {
            Ok(subscription) => {
                self.upnp_events = match held {
                    Some(events) => {
                        let renew_time = renew_at(now, subscription.timeout_seconds);
                        Some(
                            UpnpEvents {
                                subscription,
                                renew_at: renew_time,
                                timeout: events.timeout,
                                next_seq: None,
                            },
                        )
                    },
                    None => None,
                };
                self.recv()
            },
            Err(e) => {
                // Delay the next attempt so ignored errors cannot tight-loop.
                self.upnp_events = match held {
                    Some(events) => if lapsed {
                        Some(
                            UpnpEvents {
                                subscription: events.subscription,
                                renew_at: Instant { nanos: now.nanos + RESUBSCRIBE_DELAY_NANOS },
                                timeout: events.timeout,
                                next_seq: events.next_seq,
                            },
                        )
                    } else {
                        Some(events)
                    },
                    None => None,
                };
                self.stage = ListenerStage::Idle;
                ListenerAction::Fail(e)
            },
        }
    }

    /// Takes the outcome of renewing the subscription.
    fn take_renewal(&mut self, outcome: Result<u32, upnp::Failure>, now: Instant) -> (action:
        ListenerAction)
        requires
            now.is_early(),
        ensures
            (final(self)@, action) == old(self)@.next(ListenerEvent::Renewed(outcome), now),
    {
        match outcome {
            Ok(timeout_seconds) => {
                match self.upnp_events.take() {
                    Some(events) => {
                        self.upnp_events = Some(
                            UpnpEvents {
                                subscription: EventSubscription {
                                    url: events.subscription.url,
                                    sid: events.subscription.sid,
                                    timeout_seconds,
                                },
                                renew_at: renew_at(now, timeout_seconds),
                                timeout: events.timeout,
                                next_seq: events.next_seq,
                            },
                        );
                    },
                    None => {},
                }
                self.recv()
            },

            // The subscription may have lapsed, e.g. across a gateway reboot;
            // establish a fresh one as the architecture prescribes.
            Err(_) => {
                self.stage = ListenerStage::Resubscribing { lapsed: true };
                ListenerAction::Resubscribe
            },
        }
    }

    /// Takes what happened at the given time, and says what to do next.
    pub fn step(&mut self, event: ListenerEvent, now: Instant) -> (action: ListenerAction)
        requires
            old(self)@.expects(event),
            now.is_early(),
        ensures
            (final(self)@, action) == old(self)@.next(event, now),
    {
        match event {
            // Ignore messages that did not come from the gateway, regardless of their source port.
            ListenerEvent::Announcement { source, natpmp, pcp, consistent } => {
                if source == IpAddr::from(self.gateway) {
                    match natpmp {
                        Some((address, epoch_seconds)) => {
                            self.observe_epoch(epoch_seconds, consistent, now);
                            self.observe_address(IpAddr::V4(address));
                        },
                        None => match pcp {
                            Some(epoch_seconds) => {
                                self.observe_epoch(epoch_seconds, consistent, now);
                            },
                            None => {},
                        },
                    }
                }
                self.recv()
            },

            // Events may also be delivered from the address hosting the event URL.
            ListenerEvent::Connection { source } => {
                if self.accepts(source) {
                    self.stage = ListenerStage::Reading;
                    ListenerAction::Read
                } else {
                    self.recv()
                }
            },
            ListenerEvent::Notified(Ok(Notification::Event { external_ip, seq })) => {
                // A sequence gap means events were lost; re-establish the
                // subscription, whose initial event resynchronizes the state.
                if self.detects_gap(seq) {
                    self.stage = ListenerStage::Resubscribing { lapsed: false };
                    return ListenerAction::Resubscribe;
                }
                self.take_event(external_ip, seq);
                self.recv()
            },

            // A connection which could not be read is not fatal: announcements and
            // later events still arrive, and lost events are noticed by their sequence.
            ListenerEvent::Notified(_) => self.recv(),
            ListenerEvent::RenewalDue => {
                self.stage = ListenerStage::Renewing;
                ListenerAction::Renew
            },
            ListenerEvent::Renewed(outcome) => self.take_renewal(outcome, now),
            ListenerEvent::Resubscribed(outcome) => {
                let lapsed = match self.stage {
                    ListenerStage::Resubscribing { lapsed } => lapsed,
                    _ => false,
                };
                self.resubscribe(outcome, lapsed, now)
            },
            ListenerEvent::SocketFailed(e) => ListenerAction::Fail(ListenerFailure::Socket(e)),
        }
    }

    /// The subscription to cancel when listening stops, if one was made. It would otherwise
    /// remain active on the gateway until its timeout expires.
    pub fn into_events(self) -> (events: Option<UpnpEvents>)
        ensures
            events == self@.upnp_events,
    {
        self.upnp_events
    }

    /// Stops listening, given the outcome of cancelling the UPnP event subscription if one was
    /// made.
    pub fn shutdown(cancelled: Option<Result<(), upnp::Failure>>) -> (stopped: Result<
        (),
        ListenerFailure,
    >)
        ensures
            stopped == (match cancelled {
                Some(Err(e)) => Err::<(), _>(ListenerFailure::Upnp(e)),
                _ => Ok(()),
            }),
    {
        match cancelled {
            Some(Err(e)) => Err(ListenerFailure::from(e)),
            _ => Ok(()),
        }
    }
}

/// Observing an address again reports nothing new.
pub proof fn law_repeated_addresses_are_suppressed(listener: ListenerView, address: IpAddr)
    ensures
        listener.with_address(address).with_address(address) == listener.with_address(address),
        listener.with_address(address).last_address == Some(address),
{
}

/// Messages which do not come from the gateway, nor for events from the address hosting the event
/// URL, change nothing that is known about it: the listener goes on as if nothing had arrived.
pub proof fn law_other_sources_are_ignored(
    listener: ListenerView,
    event: ListenerEvent,
    now: Instant,
)
    requires
        match event {
            ListenerEvent::Announcement { source, .. } => source != listener.gateway.spec_ip(),
            ListenerEvent::Connection { source } => !listener.delivers_events(source),
            _ => false,
        },
    ensures
        listener.next(event, now) == listener.proceeding(),
{
}

/// Changes are reported in the order in which they were observed, none is lost: what is reported
/// and what is still pending is what was pending, followed by what the event added.
pub proof fn law_changes_are_reported_in_order(
    listener: ListenerView,
    event: ListenerEvent,
    now: Instant,
)
    requires
        listener.expects(event),
    ensures
        ({
            let (after, action) = listener.next(event, now);
            let known = match action {
                ListenerAction::Report(change) => seq![change] + after.pending,
                _ => after.pending,
            };
            known.len() >= listener.pending.len() && known.take(listener.pending.len() as int)
                == listener.pending
        }),
{
    let (after, action) = listener.next(event, now);
    let known = match action {
        ListenerAction::Report(change) => seq![change] + after.pending,
        _ => after.pending,
    };
    assert(known.take(listener.pending.len() as int) =~= listener.pending);
}

/// Whatever a listener was in the middle of when receiving was cancelled, receiving again loses
/// no pending change: the first is reported and the others stay, or there is none.
pub proof fn law_receiving_again_loses_nothing(listener: ListenerView)
    ensures
        ({
            let (after, action) = listener.proceeding();
            match action {
                ListenerAction::Report(change) => seq![change] + after.pending == listener.pending,
                _ => listener.pending.len() == 0,
            }
        }),
        listener.proceeding().0.last_address == listener.last_address,
        listener.proceeding().0.upnp_events == listener.upnp_events,
{
    let (after, action) = listener.proceeding();
    if listener.pending.len() > 0 {
        assert(seq![listener.pending[0]] + after.pending =~= listener.pending);
    }
}

/// An event which shows that others were lost is not trusted: the subscription is replaced, and
/// nothing is reported of it. A replaced subscription accepts any sequence number next.
pub proof fn law_lost_events_resynchronize(
    listener: ListenerView,
    external_ip: Option<IpAddr>,
    seq: Option<u32>,
    subscription: EventSubscription,
    now: Instant,
)
    requires
        listener.shows_gap(seq),
    ensures
        ({
            let event = ListenerEvent::Notified(Ok(Notification::Event { external_ip, seq }));
            let (after, action) = listener.next(event, now);
            let (renewed, _) = after.next(ListenerEvent::Resubscribed(Ok(subscription)), now);
            &&& action is Resubscribe
            &&& after.pending == listener.pending
            &&& after.last_address == listener.last_address
            &&& forall|next: Option<u32>| !#[trigger] renewed.shows_gap(next)
        }),
{
}

} // verus!
