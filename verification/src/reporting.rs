//! What listeners report over time.

use vstd::prelude::*;

use crate::address::{IpAddr, Ipv4Addr};
use crate::failures::{ListenerFailure, SocketError};
use crate::listener::{AddressChange, ListenerAction, ListenerEvent, ListenerStage, ListenerView};
use crate::mapping::PortMappingView;
use crate::time::{Duration, Instant};
use crate::upnp;
use crate::upnp::subscription::{EventSubscription, Notification};

verus! {

/// The new addresses among changes, in their order.
pub open spec fn addresses(changes: Seq<AddressChange>) -> Seq<IpAddr>
    decreases changes.len(),
{
    if changes.len() == 0 {
        seq![]
    } else {
        match changes.last() {
            AddressChange::NewAddress(address) => addresses(changes.drop_last()).push(address),
            AddressChange::GatewayReset { .. } => addresses(changes.drop_last()),
        }
    }
}

/// Whether each of successive addresses differs from the one before it, and the first from the
/// address known before them, if any.
pub open spec fn differ(known: Option<IpAddr>, successive: Seq<IpAddr>) -> bool {
    &&& successive.len() > 0 ==> known != Some(successive[0])
    &&& forall|i: int, j: int|
        0 <= i && j == i + 1 && j < successive.len() ==> #[trigger] successive[i]
            != #[trigger] successive[j]
}

/// The address known after successive addresses.
pub open spec fn latest(known: Option<IpAddr>, successive: Seq<IpAddr>) -> Option<IpAddr> {
    if successive.len() > 0 {
        Some(successive.last())
    } else {
        known
    }
}

/// Whether the reported and the pending changes of a listener are changes to an address known
/// before them, the latest of which the listener remembers.
pub open spec fn keeps_track(
    listener: ListenerView,
    known: Option<IpAddr>,
    reported: Seq<AddressChange>,
) -> bool {
    let successive = addresses(reported + listener.pending);
    &&& differ(known, successive)
    &&& listener.last_address == latest(known, successive)
}

/// What can be done with a listener.
pub enum Operation {
    /// Receiving the next change.
    Recv,

    /// Taking what happened at the given time.
    Step { event: ListenerEvent, now: Instant },

    /// Observing an address.
    ObserveAddress { address: IpAddr },

    /// Observing an epoch time.
    ObserveEpoch { epoch_seconds: u32, consistent: bool, now: Instant },
}

/// The state of a listener after an operation, and what is to be done next if it says so.
pub open spec fn after(listener: ListenerView, operation: Operation) -> (
    ListenerView,
    Option<ListenerAction>,
) {
    match operation {
        Operation::Recv => {
            let (next, action) = listener.proceeding();
            (next, Some(action))
        },
        Operation::Step { event, now } => {
            let (next, action) = listener.next(event, now);
            (next, Some(action))
        },
        Operation::ObserveAddress { address } => (listener.with_address(address), None),
        Operation::ObserveEpoch { epoch_seconds, consistent, now } => (
            listener.with_epoch(epoch_seconds, consistent, now),
            None,
        ),
    }
}

/// The changes that an action reports: one, or none.
pub open spec fn changes_of(action: Option<ListenerAction>) -> Seq<AddressChange> {
    match action {
        Some(ListenerAction::Report(change)) => seq![change],
        _ => seq![],
    }
}

/// The changes that a listener reports over a sequence of operations.
pub open spec fn reported(listener: ListenerView, operations: Seq<Operation>) -> Seq<AddressChange>
    decreases operations.len(),
{
    if operations.len() == 0 {
        seq![]
    } else {
        let (next, action) = after(listener, operations[0]);
        changes_of(action) + reported(next, operations.skip(1))
    }
}

/// The addresses among changes are followed by that of one more.
proof fn lemma_addresses_push(changes: Seq<AddressChange>, change: AddressChange)
    ensures
        addresses(changes.push(change)) == (match change {
            AddressChange::NewAddress(address) => addresses(changes).push(address),
            AddressChange::GatewayReset { .. } => addresses(changes),
        }),
{
    assert(changes.push(change).drop_last() =~= changes);
}

/// The addresses among the first changes come first.
proof fn lemma_addresses_prefix(first: Seq<AddressChange>, others: Seq<AddressChange>)
    ensures
        addresses(first).is_prefix_of(addresses(first + others)),
    decreases others.len(),
{
    if others.len() == 0 {
        assert(first + others =~= first);
    } else {
        lemma_addresses_prefix(first, others.drop_last());
        lemma_addresses_push(first + others.drop_last(), others.last());
        assert(first + others =~= (first + others.drop_last()).push(others.last()));
    }
}

/// Observing an address keeps track.
proof fn lemma_with_address(
    listener: ListenerView,
    known: Option<IpAddr>,
    before: Seq<AddressChange>,
    address: IpAddr,
)
    requires
        keeps_track(listener, known, before),
    ensures
        keeps_track(listener.with_address(address), known, before),
{
    let change = AddressChange::NewAddress(address);
    lemma_addresses_push(before + listener.pending, change);
    assert(before + listener.pending.push(change) =~= (before + listener.pending).push(change));
}

/// Observing an epoch time keeps track.
proof fn lemma_with_epoch(
    listener: ListenerView,
    known: Option<IpAddr>,
    before: Seq<AddressChange>,
    epoch_seconds: u32,
    consistent: bool,
    now: Instant,
)
    requires
        keeps_track(listener, known, before),
    ensures
        keeps_track(listener.with_epoch(epoch_seconds, consistent, now), known, before),
{
    let change = AddressChange::GatewayReset { epoch_seconds };
    lemma_addresses_push(before + listener.pending, change);
    assert(before + listener.pending.push(change) =~= (before + listener.pending).push(change));
}

/// Reporting the next change keeps track.
proof fn lemma_proceeding(
    listener: ListenerView,
    known: Option<IpAddr>,
    before: Seq<AddressChange>,
)
    requires
        keeps_track(listener, known, before),
    ensures
        ({
            let (next, action) = listener.proceeding();
            keeps_track(next, known, before + changes_of(Some(action)))
        }),
{
    let (next, action) = listener.proceeding();
    assert(before + changes_of(Some(action)) + next.pending =~= before + listener.pending);
}

/// Taking what happened keeps track.
proof fn lemma_next(
    listener: ListenerView,
    known: Option<IpAddr>,
    before: Seq<AddressChange>,
    event: ListenerEvent,
    now: Instant,
)
    requires
        keeps_track(listener, known, before),
    ensures
        ({
            let (next, action) = listener.next(event, now);
            keeps_track(next, known, before + changes_of(Some(action)))
        }),
{
    let (next, action) = listener.next(event, now);
    assert(before + seq![] =~= before);
    match event {
        ListenerEvent::Announcement { source, natpmp, pcp, consistent } => {
            if source == listener.gateway.spec_ip() {
                match natpmp {
                    Some((address, epoch_seconds)) => {
                        let observed = listener.with_epoch(epoch_seconds, consistent, now);
                        lemma_with_epoch(listener, known, before, epoch_seconds, consistent, now);
                        lemma_with_address(observed, known, before, IpAddr::V4(address));
                    },
                    None => match pcp {
                        Some(epoch_seconds) => {
                            lemma_with_epoch(
                                listener,
                                known,
                                before,
                                epoch_seconds,
                                consistent,
                                now,
                            );
                        },
                        None => {},
                    },
                }
                lemma_proceeding(
                    listener.with_announcement(natpmp, pcp, consistent, now),
                    known,
                    before,
                );
            } else {
                lemma_proceeding(listener, known, before);
            }
        },
        ListenerEvent::Connection { source } => {
            if !listener.delivers_events(source) {
                lemma_proceeding(listener, known, before);
            }
        },
        ListenerEvent::Notified(Ok(Notification::Event { external_ip, seq })) => {
            if !listener.shows_gap(seq) {
                let numbered = listener.with_event(None, seq);
                match external_ip {
                    Some(address) => lemma_with_address(numbered, known, before, address),
                    None => {},
                }
                lemma_proceeding(listener.with_event(external_ip, seq), known, before);
            }
        },
        ListenerEvent::Notified(_) => lemma_proceeding(listener, known, before),
        ListenerEvent::Renewed(Ok(_)) | ListenerEvent::Resubscribed(Ok(_)) => {
            let renewed = ListenerView { upnp_events: next.upnp_events, ..listener };
            lemma_proceeding(renewed, known, before);
        },
        _ => {},
    }
}

/// Every operation keeps track of the addresses known, pending and reported.
pub proof fn law_operations_keep_track(
    listener: ListenerView,
    known: Option<IpAddr>,
    before: Seq<AddressChange>,
    operation: Operation,
)
    requires
        keeps_track(listener, known, before),
    ensures
        ({
            let (next, action) = after(listener, operation);
            keeps_track(next, known, before + changes_of(action))
        }),
{
    assert(before + seq![] =~= before);
    match operation {
        Operation::Recv => lemma_proceeding(listener, known, before),
        Operation::Step { event, now } => lemma_next(listener, known, before, event, now),
        Operation::ObserveAddress { address } => {
            lemma_with_address(listener, known, before, address)
        },
        Operation::ObserveEpoch { epoch_seconds, consistent, now } => {
            lemma_with_epoch(listener, known, before, epoch_seconds, consistent, now)
        },
    }
}

/// What is reported over a sequence of operations continues what was reported before with new
/// addresses which differ from each other.
proof fn lemma_reported(
    listener: ListenerView,
    known: Option<IpAddr>,
    before: Seq<AddressChange>,
    operations: Seq<Operation>,
)
    requires
        keeps_track(listener, known, before),
    ensures
        differ(known, addresses(before + reported(listener, operations))),
    decreases operations.len(),
{
    if operations.len() == 0 {
        assert(before + reported(listener, operations) =~= before);
        lemma_addresses_prefix(before, listener.pending);
    } else {
        let (next, action) = after(listener, operations[0]);
        let rest = operations.skip(1);
        law_operations_keep_track(listener, known, before, operations[0]);
        lemma_reported(next, known, before + changes_of(action), rest);
        assert(before + reported(listener, operations) =~= before + changes_of(action) + reported(
            next,
            rest,
        ));
    }
}

/// No address is reported twice in a row: over any sequence of operations each new address that is
/// reported differs from the one reported before it, and the first from the address known when
/// nothing had been reported.
pub proof fn law_successive_addresses_differ(
    listener: ListenerView,
    known: Option<IpAddr>,
    operations: Seq<Operation>,
)
    requires
        keeps_track(listener, known, seq![]),
    ensures
        differ(known, addresses(reported(listener, operations))),
{
    let nothing: Seq<AddressChange> = seq![];
    lemma_reported(listener, known, nothing, operations);
    assert(nothing + reported(listener, operations) =~= reported(listener, operations));
}

/// Listeners keep track from when they are bound. Those with nothing pending know the last address
/// they observed; those for a mapping know its external address.
pub proof fn law_bound_listeners_keep_track(listener: ListenerView, mapping: PortMappingView)
    requires
        listener.pending.len() == 0,
    ensures
        keeps_track(listener, listener.last_address, seq![]),
        keeps_track(listener.for_mapping(mapping), Some(mapping.external_ip), seq![]),
{
    let nothing: Seq<AddressChange> = seq![];
    assert(nothing + listener.pending =~= nothing);
    match listener.last_address {
        Some(current) => {
            let change = AddressChange::NewAddress(current);
            lemma_addresses_push(nothing, change);
            assert(nothing + listener.pending.push(change) =~= nothing.push(change));
        },
        None => {},
    }
}

/// The changes known after an event: those that are reported, followed by those still pending.
pub open spec fn known_after(listener: ListenerView, event: ListenerEvent, now: Instant) -> Seq<
    AddressChange,
> {
    let (next, action) = listener.next(event, now);
    changes_of(Some(action)) + next.pending
}

/// The change to a new address, if it differs from the one known before.
pub open spec fn address_change(known: Option<IpAddr>, address: IpAddr) -> Seq<AddressChange> {
    if known == Some(address) {
        seq![]
    } else {
        seq![AddressChange::NewAddress(address)]
    }
}

/// Reporting the next change keeps the changes that are known.
proof fn lemma_known(listener: ListenerView)
    ensures
        ({
            let (next, action) = listener.proceeding();
            changes_of(Some(action)) + next.pending == listener.pending
        }),
{
    let (next, action) = listener.proceeding();
    assert(changes_of(Some(action)) + next.pending =~= listener.pending);
}

/// The address that an event of the subscription carries becomes the last known one, whatever came
/// before, and is added to the changes if it differs from the one known before. An event without an
/// address adds nothing. The event after it is expected to have the following number, which is one
/// more, or one after the largest. This holds of every event which shows no gap, and a gap is shown
/// by a number other than the expected one alone.
pub proof fn law_events_are_observed(
    listener: ListenerView,
    external_ip: Option<IpAddr>,
    seq: Option<u32>,
    now: Instant,
)
    requires
        listener.upnp_events matches Some(events) ==> events.next_seq is None || seq is None
            || events.next_seq == seq,
    ensures
        ({
            let event = ListenerEvent::Notified(Ok(Notification::Event { external_ip, seq }));
            let (next, _) = listener.next(event, now);
            &&& match external_ip {
                Some(address) => {
                    &&& next.last_address == Some(address)
                    &&& known_after(listener, event, now) == listener.pending + address_change(
                        listener.last_address,
                        address,
                    )
                },
                None => {
                    &&& next.last_address == listener.last_address
                    &&& known_after(listener, event, now) == listener.pending
                },
            }
            &&& listener.upnp_events matches Some(events) ==> {
                &&& next.upnp_events is Some
                &&& next.upnp_events.unwrap().subscription == events.subscription
                &&& next.upnp_events.unwrap().renew_at == events.renew_at
                &&& seq is None ==> next.upnp_events.unwrap().next_seq == events.next_seq
                &&& seq matches Some(n) ==> next.upnp_events.unwrap().next_seq == Some(
                    if n < 0xFFFF_FFFF {
                        (n + 1) as u32
                    } else {
                        1
                    },
                )
            }
        }),
{
    let event = ListenerEvent::Notified(Ok(Notification::Event { external_ip, seq }));
    lemma_known(listener.with_event(external_ip, seq));
    match external_ip {
        Some(address) => {
            let change = address_change(listener.last_address, address);
            assert(listener.with_event(external_ip, seq).pending =~= listener.pending + change);
        },
        None => {},
    }
}

/// An event with another number than the expected one is not taken: the subscription is replaced.
/// Its replacement takes events of any number, and the address that the first of them carries is
/// observed like any other.
pub proof fn law_replaced_subscriptions_resynchronize(
    listener: ListenerView,
    subscription: EventSubscription,
    address: IpAddr,
    seq: Option<u32>,
    now: Instant,
    later: Instant,
)
    requires
        listener.upnp_events is Some,
    ensures
        ({
            let (renewed, _) = listener.next(ListenerEvent::Resubscribed(Ok(subscription)), now);
            let event = ListenerEvent::Notified(
                Ok(Notification::Event { external_ip: Some(address), seq }),
            );
            let (next, action) = renewed.next(event, later);
            &&& renewed.upnp_events matches Some(events) && events.subscription == subscription
                && events.next_seq is None
            &&& renewed.last_address == listener.last_address
            &&& next.last_address == Some(address)
            &&& known_after(renewed, event, later) == renewed.pending + address_change(
                listener.last_address,
                address,
            )
            &&& renewed.pending.len() == 0 && listener.last_address != Some(address) ==> action
                == ListenerAction::Report(AddressChange::NewAddress(address))
        }),
{
    let (renewed, _) = listener.next(ListenerEvent::Resubscribed(Ok(subscription)), now);
    law_events_are_observed(renewed, Some(address), seq, later);
}

/// A number other than the expected one shows that events were lost: nothing of the event is taken,
/// and the subscription is replaced.
pub proof fn law_gaps_are_noticed(
    listener: ListenerView,
    external_ip: Option<IpAddr>,
    seq: u32,
    expected: u32,
    now: Instant,
)
    requires
        listener.upnp_events matches Some(events) && events.next_seq == Some(expected),
        seq != expected,
    ensures
        ({
            let event = ListenerEvent::Notified(
                Ok(Notification::Event { external_ip, seq: Some(seq) }),
            );
            let (next, action) = listener.next(event, now);
            &&& action is Resubscribe
            &&& next.last_address == listener.last_address
            &&& next.upnp_events == listener.upnp_events
            &&& known_after(listener, event, now) == listener.pending
        }),
{
    let event = ListenerEvent::Notified(Ok(Notification::Event { external_ip, seq: Some(seq) }));
    assert(known_after(listener, event, now) =~= listener.pending);
}

/// An announcement of the gateway is taken for what it says: a NAT-PMP announcement for its epoch
/// time and its address, and a PCP announcement for its epoch time alone. An epoch time which is
/// inconsistent with one observed before is a reset of the gateway, which is added to the changes
/// before the address. A datagram that is neither changes nothing.
pub proof fn law_announcements_are_observed(
    listener: ListenerView,
    natpmp: Option<(Ipv4Addr, u32)>,
    pcp: Option<u32>,
    consistent: bool,
    now: Instant,
)
    ensures
        ({
            let event = ListenerEvent::Announcement {
                source: listener.gateway.spec_ip(),
                natpmp,
                pcp,
                consistent,
            };
            let (next, _) = listener.next(event, now);
            let reset = |epoch_seconds: u32|
                if listener.last_epoch is Some && !consistent {
                    seq![AddressChange::GatewayReset { epoch_seconds }]
                } else {
                    seq![]
                };
            &&& next.upnp_events == listener.upnp_events
            &&& natpmp matches Some((address, epoch_seconds)) ==> {
                &&& next.last_epoch == Some((now, epoch_seconds))
                &&& next.last_address == Some(IpAddr::V4(address))
                &&& known_after(listener, event, now) == listener.pending + reset(epoch_seconds)
                    + address_change(listener.last_address, IpAddr::V4(address))
            }
            &&& natpmp is None ==> {
                &&& next.last_address == listener.last_address
                &&& pcp matches Some(epoch_seconds) ==> {
                    &&& next.last_epoch == Some((now, epoch_seconds))
                    &&& known_after(listener, event, now) == listener.pending + reset(epoch_seconds)
                }
                &&& pcp is None ==> {
                    &&& next.last_epoch == listener.last_epoch
                    &&& known_after(listener, event, now) == listener.pending
                }
            }
        }),
{
    let observed = listener.with_announcement(natpmp, pcp, consistent, now);
    lemma_known(observed);
    let reset = |epoch_seconds: u32|
        if listener.last_epoch is Some && !consistent {
            seq![AddressChange::GatewayReset { epoch_seconds }]
        } else {
            seq![]
        };
    match natpmp {
        Some((address, epoch_seconds)) => {
            assert(observed.pending =~= listener.pending + reset(epoch_seconds) + address_change(
                listener.last_address,
                IpAddr::V4(address),
            ));
        },
        None => match pcp {
            Some(epoch_seconds) => {
                assert(observed.pending =~= listener.pending + reset(epoch_seconds));
            },
            None => {},
        },
    }
}

/// The number of nanoseconds until a subscription is renewed: half its timeout in whole seconds,
/// but at least a second.
pub open spec fn nanos_to_renewal(timeout_seconds: u32) -> int {
    if timeout_seconds >= 4 {
        (timeout_seconds / 2) * 1_000_000_000
    } else {
        1_000_000_000
    }
}

/// A subscription is kept up. It is renewed when that is due, for the time that the gateway grants.
/// If it cannot be renewed it is replaced, with another attempt after a minute if that fails too.
/// Renewing and replacing change nothing that is known of the address.
pub proof fn law_subscriptions_are_kept_up(
    listener: ListenerView,
    timeout_seconds: u32,
    subscription: EventSubscription,
    failure: upnp::Failure,
    refused: ListenerFailure,
    now: Instant,
)
    requires
        listener.upnp_events is Some,
        now.is_early(),
    ensures
        ({
            let events = listener.upnp_events.unwrap();
            let (due, action_due) = listener.next(ListenerEvent::RenewalDue, now);
            let (renewed, _) = listener.next(ListenerEvent::Renewed(Ok(timeout_seconds)), now);
            let (lapsed, action_lapsed) = listener.next(ListenerEvent::Renewed(Err(failure)), now);
            let (replaced, _) = listener.next(ListenerEvent::Resubscribed(Ok(subscription)), now);
            let (unreplaced, action_unreplaced) = listener.next(
                ListenerEvent::Resubscribed(Err(refused)),
                now,
            );
            &&& action_due is Renew && due.upnp_events == listener.upnp_events
            &&& renewed.upnp_events matches Some(e) && {
                &&& e.subscription.timeout_seconds == timeout_seconds
                &&& e.subscription.sid == events.subscription.sid
                &&& e.subscription.url == events.subscription.url
                &&& e.renew_at.nanos == now.nanos + nanos_to_renewal(timeout_seconds)
                &&& e.next_seq == events.next_seq
                &&& e.timeout == events.timeout
            }
            &&& action_lapsed is Resubscribe && lapsed.upnp_events == listener.upnp_events
            &&& replaced.upnp_events matches Some(e) && {
                &&& e.subscription == subscription
                &&& e.renew_at.nanos == now.nanos + nanos_to_renewal(subscription.timeout_seconds)
                &&& e.next_seq is None
                &&& e.timeout == events.timeout
            }
            &&& action_unreplaced == ListenerAction::Fail(refused)
            &&& unreplaced.upnp_events matches Some(e) && {
                &&& e.subscription == events.subscription
                &&& e.next_seq == events.next_seq
                &&& listener.stage == (ListenerStage::Resubscribing { lapsed: true })
                    ==> e.renew_at.nanos == now.nanos + 60_000_000_000
                &&& listener.stage == (ListenerStage::Resubscribing { lapsed: false })
                    ==> e.renew_at == events.renew_at
            }
            &&& unreplaced.last_address == listener.last_address
            &&& unreplaced.pending == listener.pending
            &&& known_after(listener, ListenerEvent::Renewed(Ok(timeout_seconds)), now)
                == listener.pending
            &&& known_after(listener, ListenerEvent::Resubscribed(Ok(subscription)), now)
                == listener.pending
            &&& renewed.last_address == listener.last_address
            &&& replaced.last_address == listener.last_address
            &&& lapsed.stage == (ListenerStage::Resubscribing { lapsed: true })
        }),
{
    let events = listener.upnp_events.unwrap();
    lemma_known(
        ListenerView {
            upnp_events: listener.next(
                ListenerEvent::Renewed(Ok(timeout_seconds)),
                now,
            ).0.upnp_events,
            ..listener
        },
    );
    lemma_known(
        ListenerView {
            upnp_events: listener.next(
                ListenerEvent::Resubscribed(Ok(subscription)),
                now,
            ).0.upnp_events,
            ..listener
        },
    );
}

/// Connections from the gateway, or from the address of the event URL, are read. What cannot be
/// read, or is for another subscription, changes nothing. A socket that fails is reported.
pub proof fn law_connections_are_read(
    listener: ListenerView,
    source: IpAddr,
    failure: upnp::Failure,
    error: SocketError,
    now: Instant,
)
    ensures
        source == listener.gateway.spec_ip() ==> listener.next(
            ListenerEvent::Connection { source },
            now,
        ).1 is Read,
        (listener.upnp_events matches Some(events) && source
            == events.subscription.url.address.spec_ip()) ==> listener.next(
            ListenerEvent::Connection { source },
            now,
        ).1 is Read,
        ({
            let unread = ListenerEvent::Notified(Err(failure));
            let foreign = ListenerEvent::Notified(Ok(Notification::NotOurs));
            &&& known_after(listener, unread, now) == listener.pending
            &&& known_after(listener, foreign, now) == listener.pending
            &&& listener.next(unread, now).0.last_address == listener.last_address
            &&& listener.next(foreign, now).0.last_address == listener.last_address
            &&& listener.next(unread, now).0.upnp_events == listener.upnp_events
            &&& listener.next(foreign, now).0.upnp_events == listener.upnp_events
        }),
        listener.next(ListenerEvent::SocketFailed(error), now).1 == ListenerAction::Fail(
            ListenerFailure::Socket(error),
        ),
{
    lemma_known(listener);
}

/// The initial event of a subscription says what the address is, and which event follows. It is no
/// change to report.
pub proof fn law_initial_event_is_the_starting_point(
    listener: ListenerView,
    subscription: EventSubscription,
    timeout: Duration,
    external_ip: Option<IpAddr>,
    seq: Option<u32>,
    now: Instant,
)
    requires
        now.is_early(),
    ensures
        ({
            let bound = listener.with_subscription(subscription, timeout, external_ip, seq, now);
            &&& bound.pending == listener.pending
            &&& bound.gateway == listener.gateway
            &&& bound.last_epoch == listener.last_epoch
            &&& external_ip is Some ==> bound.last_address == external_ip
            &&& external_ip is None ==> bound.last_address == listener.last_address
            &&& bound.upnp_events matches Some(events) && {
                &&& events.subscription == subscription
                &&& events.timeout == timeout
                &&& events.renew_at.nanos == now.nanos + nanos_to_renewal(
                    subscription.timeout_seconds,
                )
                &&& seq is None ==> events.next_seq is None
                &&& seq matches Some(n) ==> events.next_seq == Some(
                    if n < 0xFFFF_FFFF {
                        (n + 1) as u32
                    } else {
                        1
                    },
                )
            }
        }),
{
}

/// A listener for a mapping knows the external address of the mapping. Only a UPnP gateway whose
/// initial event carried another address has a change to report, which is to that address. For
/// the other protocols, the epoch time that the mapping was made at is the first observation.
pub proof fn law_mappings_are_the_starting_point(listener: ListenerView, mapping: PortMappingView)
    requires
        mapping.expiration.nanos >= mapping.lifetime_seconds * 1_000_000_000,
    ensures
        ({
            let bound = listener.for_mapping(mapping);
            &&& bound.upnp_events == listener.upnp_events
            &&& bound.gateway == listener.gateway
            &&& !(mapping.mapping_type is Upnp) ==> {
                &&& bound.pending == listener.pending
                &&& bound.last_address == Some(mapping.external_ip)
                &&& bound.last_epoch matches Some((observed_at, epoch_seconds)) && observed_at.nanos
                    + mapping.lifetime_seconds * 1_000_000_000 == mapping.expiration.nanos
                    && epoch_seconds == mapping.gateway_epoch_seconds
            }
            &&& mapping.mapping_type is Upnp ==> {
                &&& bound.last_epoch == listener.last_epoch
                &&& listener.last_address is None ==> bound.last_address == Some(
                    mapping.external_ip,
                ) && bound.pending == listener.pending
                &&& listener.last_address matches Some(current) ==> bound.last_address == Some(
                    current,
                ) && bound.pending == listener.pending + address_change(
                    Some(mapping.external_ip),
                    current,
                )
            }
        }),
{
    if let Some(current) = listener.last_address {
        assert(listener.pending + address_change(Some(mapping.external_ip), current) =~= (if current
            != mapping.external_ip {
            listener.pending.push(AddressChange::NewAddress(current))
        } else {
            listener.pending
        }));
    }
}

/// What an action brings about is what the listener waits for. Connections and renewals concern
/// listeners with a subscription only.
pub proof fn law_listener_actions_are_waited_for(
    listener: ListenerView,
    event: ListenerEvent,
    now: Instant,
    next: ListenerEvent,
)
    requires
        listener.expects(event),
    ensures
        ({
            let (after, action) = listener.next(event, now);
            let subscribed = listener.upnp_events is Some;
            &&& (after.upnp_events is Some) == subscribed
            &&& action is Read && next is Notified ==> after.expects(next)
            &&& action is Renew && next is Renewed ==> after.expects(next)
            &&& action is Resubscribe && next is Resubscribed ==> after.expects(next)
            &&& action is Wait || action is Report || action is Fail ==> {
                &&& next is Announcement || next is SocketFailed ==> after.expects(next)
                &&& next is Connection || next is RenewalDue ==> after.expects(next) == subscribed
                &&& next is Notified || next is Renewed || next is Resubscribed ==> !after.expects(
                    next,
                )
            }
        }),
{
}

} // verus!
