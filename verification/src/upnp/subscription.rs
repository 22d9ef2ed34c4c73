//! Subscribing to the events of a gateway, and reading the notifications that it delivers.

use vstd::prelude::*;
use vstd::string::*;

use crate::address::{IpAddr, SocketAddr};
use crate::bytes;
use crate::scan;
use crate::scan::{append_decimal, chars_of, span_eq_ignore_case, span_is, span_number};
use crate::text;
use crate::text::Span;
use crate::upnp::endpoint::EventUrl;
use crate::upnp::events;
use crate::upnp::events::{parse_notify_request, EventNotification, EventNotificationView};
use crate::upnp::exchange;
use crate::upnp::failure::{Failure, InvalidResponseKind};
use crate::upnp::http;
use crate::upnp::http::HttpResponse;
use crate::upnp::url;
use crate::upnp::url::host_header;
use crate::upnp::xml;
use crate::upnp::xml::find_tag_value;
use crate::upnp::MAX_HTTP_RESPONSE_SIZE;

verus! {

/// The subscription duration requested for event subscriptions, matching the common gateway default.
pub const EVENT_TIMEOUT_SECONDS: u32 = 1800;

/// An active event subscription on a gateway service.
/// See section 4 of the UPnP Device Architecture for the eventing protocol.
#[derive(Debug)]
pub struct EventSubscription {
    /// The URL the subscription was made at.
    pub url: EventUrl,

    /// The subscription identifier assigned by the gateway.
    pub sid: String,

    /// The number of seconds until the subscription expires unless renewed.
    pub timeout_seconds: u32,
}

/// The number of seconds that a subscription timeout header gives, e.g. `Second-1800`, which is
/// the requested duration when the header is missing or unparsable.
pub open spec fn subscription_timeout(value: Option<Seq<char>>) -> nat {
    match value {
        Some(v) => if v.len() >= 7 && text::eq_ignore_case(v.take(7), "Second-"@) {
            match text::parse_unsigned(v.skip(7), 10, u32::MAX as nat) {
                Some(seconds) => seconds,
                None => EVENT_TIMEOUT_SECONDS as nat,
            }
        } else {
            EVENT_TIMEOUT_SECONDS as nat
        },
        None => EVENT_TIMEOUT_SECONDS as nat,
    }
}

/// Parse the number of seconds in a subscription timeout header, e.g. `Second-1800`.
/// Falls back to the requested duration when the header is missing or unparsable.
pub fn parse_subscription_timeout(value: Option<&str>) -> (seconds: u32)
    ensures
        seconds == subscription_timeout(
            match value {
                Some(v) => Some(v@),
                None => None,
            },
        ),
{
    let text = match value {
        Some(text) => text,
        None => {
            return EVENT_TIMEOUT_SECONDS;
        },
    };
    let chars = chars_of(text);
    let length: usize = chars.len();
    if length < 7 {
        return EVENT_TIMEOUT_SECONDS;
    }
    let prefix = Span { start: 0, end: 7 };
    let digits = Span { start: 7, end: length };
    proof {
        assert(prefix.of(text@) =~= text@.take(7));
        assert(digits.of(text@) =~= text@.skip(7));
    }
    if !span_eq_ignore_case(chars.as_slice(), prefix, "Second-") {
        return EVENT_TIMEOUT_SECONDS;
    }
    match span_number(chars.as_slice(), digits, 10, u32::MAX as u64) {
        Some(seconds) => seconds as u32,
        None => EVENT_TIMEOUT_SECONDS,
    }
}

/// The number of seconds written in a timeout header is the number read from it.
pub proof fn law_timeout_is_read(seconds: u32)
    ensures
        subscription_timeout(Some("Second-"@ + text::decimal(seconds as nat))) == seconds,
{
    let value = "Second-"@ + text::decimal(seconds as nat);
    reveal_strlit("Second-");
    text::law_decimal_is_read(seconds as nat, u32::MAX as nat);
    assert(value.take(7) =~= "Second-"@);
    assert(value.skip(7) =~= text::decimal(seconds as nat));
}

/// The request that subscribes to the events of a service.
pub open spec fn subscribe_text(path: Seq<char>, host: Seq<char>, callback: Seq<char>) -> Seq<
    char,
> {
    "SUBSCRIBE "@ + path + " HTTP/1.1\r\nHost: "@ + host + "\r\nCALLBACK: <http://"@ + callback
        + "/>\r\nNT: upnp:event\r\nTIMEOUT: Second-"@ + text::decimal(EVENT_TIMEOUT_SECONDS as nat)
        + "\r\nConnection: close\r\n\r\n"@
}

/// The request to subscribe to state change events of the service at the given event URL.
/// The gateway will deliver events by connecting to an HTTP server at the callback address.
/// `host_ip` and `callback_ip` are the texts of the IP addresses of the URL and of the callback.
pub fn subscribe_request(
    event_url: &EventUrl,
    host_ip: &str,
    callback: &SocketAddr,
    callback_ip: &str,
) -> (request: String)
    ensures
        request@ == subscribe_text(
            event_url.path@,
            url::host_value(event_url.address, host_ip@),
            url::host_value(*callback, callback_ip@),
        ),
{
    let host = host_header(&event_url.address, host_ip);
    let callback_host = host_header(callback, callback_ip);
    let mut request = "SUBSCRIBE ".to_owned();
    request.append(event_url.path.as_str());
    request.append(" HTTP/1.1\r\nHost: ");
    request.append(host.as_str());
    request.append("\r\nCALLBACK: <http://");
    request.append(callback_host.as_str());
    request.append("/>\r\nNT: upnp:event\r\nTIMEOUT: Second-");
    append_decimal(&mut request, EVENT_TIMEOUT_SECONDS as u64);
    request.append("\r\nConnection: close\r\n\r\n");
    request
}

/// The subscription that the gateway granted with its response to a subscribe request, or the
/// reason why there is none. `exchange` is the outcome of the HTTP exchange.
pub fn subscribe(event_url: &EventUrl, exchange: Result<HttpResponse, Failure>) -> (granted: Result<
    EventSubscription,
    Failure,
>)
    ensures
        match exchange {
            Err(e) => granted == Err::<EventSubscription, _>(e),
            Ok(response) => if response.status != 200 {
                granted == Err::<EventSubscription, _>(Failure::HttpStatus(response.status))
            } else {
                match response.sid {
                    None => granted == Err::<EventSubscription, _>(
                        Failure::InvalidResponse(InvalidResponseKind::MissingSubscriptionId),
                    ),
                    Some(sid) => {
                        &&& granted is Ok
                        &&& granted->Ok_0.url == *event_url
                        &&& granted->Ok_0.sid@ == sid@
                        &&& granted->Ok_0.timeout_seconds == subscription_timeout(
                            http::optional_text(response.timeout),
                        )
                    },
                }
            },
        },
{
    let response = match exchange {
        Ok(response) => response,
        Err(e) => {
            return Err(e);
        },
    };
    if response.status != 200 {
        return Err(Failure::HttpStatus(response.status));
    }
    let timeout_seconds: u32 = granted_timeout(&response);
    match response.sid {
        Some(sid) => Ok(EventSubscription { url: event_url.clone(), sid, timeout_seconds }),
        None => Err(Failure::InvalidResponse(InvalidResponseKind::MissingSubscriptionId)),
    }
}

/// The number of seconds that a response grants a subscription.
fn granted_timeout(response: &HttpResponse) -> (seconds: u32)
    ensures
        seconds == subscription_timeout(http::optional_text(response.timeout)),
{
    match &response.timeout {
        Some(value) => parse_subscription_timeout(Some(value.as_str())),
        None => parse_subscription_timeout(None),
    }
}

/// The request that renews a subscription.
pub open spec fn renew_text(path: Seq<char>, host: Seq<char>, sid: Seq<char>) -> Seq<char> {
    "SUBSCRIBE "@ + path + " HTTP/1.1\r\nHost: "@ + host + "\r\nSID: "@ + sid
        + "\r\nTIMEOUT: Second-"@ + text::decimal(EVENT_TIMEOUT_SECONDS as nat)
        + "\r\nConnection: close\r\n\r\n"@
}

/// The request to renew an event subscription before it expires. `host_ip` is the text of the IP
/// address of the event URL.
pub fn renew_request(subscription: &EventSubscription, host_ip: &str) -> (request: String)
    ensures
        request@ == renew_text(
            subscription.url.path@,
            url::host_value(subscription.url.address, host_ip@),
            subscription.sid@,
        ),
{
    let host = host_header(&subscription.url.address, host_ip);
    let mut request = "SUBSCRIBE ".to_owned();
    request.append(subscription.url.path.as_str());
    request.append(" HTTP/1.1\r\nHost: ");
    request.append(host.as_str());
    request.append("\r\nSID: ");
    request.append(subscription.sid.as_str());
    request.append("\r\nTIMEOUT: Second-");
    append_decimal(&mut request, EVENT_TIMEOUT_SECONDS as u64);
    request.append("\r\nConnection: close\r\n\r\n");
    request
}

/// The number of seconds until a renewed subscription expires, or the reason why it was not
/// renewed. `exchange` is the outcome of the HTTP exchange.
pub fn renew_subscription(exchange: Result<HttpResponse, Failure>) -> (seconds: Result<
    u32,
    Failure,
>)
    ensures
        match exchange {
            Err(e) => seconds == Err::<u32, _>(e),
            Ok(response) => if response.status != 200 {
                seconds == Err::<u32, _>(Failure::HttpStatus(response.status))
            } else {
                seconds is Ok && seconds->Ok_0 == subscription_timeout(
                    http::optional_text(response.timeout),
                )
            },
        },
{
    match exchange {
        Ok(response) => if response.status != 200 {
            Err(Failure::HttpStatus(response.status))
        } else {
            Ok(granted_timeout(&response))
        },
        Err(e) => Err(e),
    }
}

/// The request that cancels a subscription.
pub open spec fn unsubscribe_text(path: Seq<char>, host: Seq<char>, sid: Seq<char>) -> Seq<char> {
    "UNSUBSCRIBE "@ + path + " HTTP/1.1\r\nHost: "@ + host + "\r\nSID: "@ + sid
        + "\r\nConnection: close\r\n\r\n"@
}

/// The request to cancel an event subscription, which would otherwise remain active until its
/// timeout expires. `host_ip` is the text of the IP address of the event URL.
pub fn unsubscribe_request(subscription: &EventSubscription, host_ip: &str) -> (request: String)
    ensures
        request@ == unsubscribe_text(
            subscription.url.path@,
            url::host_value(subscription.url.address, host_ip@),
            subscription.sid@,
        ),
{
    let host = host_header(&subscription.url.address, host_ip);
    let mut request = "UNSUBSCRIBE ".to_owned();
    request.append(subscription.url.path.as_str());
    request.append(" HTTP/1.1\r\nHost: ");
    request.append(host.as_str());
    request.append("\r\nSID: ");
    request.append(subscription.sid.as_str());
    request.append("\r\nConnection: close\r\n\r\n");
    request
}

/// Whether a subscription was cancelled, or the reason why not. `exchange` is the outcome of the
/// HTTP exchange.
pub fn unsubscribe(exchange: Result<HttpResponse, Failure>) -> (cancelled: Result<(), Failure>)
    ensures
        cancelled == (match exchange {
            Err(e) => Err::<(), _>(e),
            Ok(response) => if response.status != 200 {
                Err::<(), _>(Failure::HttpStatus(response.status))
            } else {
                Ok(())
            },
        }),
{
    match exchange {
        Ok(response) => if response.status != 200 {
            Err(Failure::HttpStatus(response.status))
        } else {
            Ok(())
        },
        Err(e) => Err(e),
    }
}

/// What is known of a notification after some of it was received, `Ok(None)` while it is
/// incomplete.
pub open spec fn notification_so_far(received: Seq<u8>, eof: bool) -> Result<
    Option<EventNotificationView>,
    Failure,
> {
    if received.len() > MAX_HTTP_RESPONSE_SIZE {
        Err(Failure::InvalidResponse(InvalidResponseKind::ResponseTooLarge))
    } else {
        match events::notify_request(received, eof) {
            Ok(notification) => Ok(notification),
            Err(e) => Err(Failure::InvalidResponse(e)),
        }
    }
}

/// Collects a notification as it is read from a callback connection.
#[derive(Debug)]
pub struct NotificationReader {
    /// The bytes received so far.
    pub received: Vec<u8>,
}

impl NotificationReader {
    /// A reader which has not received anything.
    pub fn new() -> (reader: NotificationReader)
        ensures
            reader.received@ == Seq::<u8>::empty(),
    {
        NotificationReader { received: Vec::new() }
    }

    /// Take the bytes of one read from the connection, an empty read meaning that the connection
    /// has closed. Returns the notification once it is complete.
    pub fn receive(&mut self, chunk: &[u8]) -> (outcome: Result<Option<EventNotification>, Failure>)
        ensures
            final(self).received@ == old(self).received@ + chunk@,
            match outcome {
                Ok(Some(notification)) => {
                    &&& notification_so_far(final(self).received@, chunk@.len() == 0) == Ok::<
                        _,
                        Failure,
                    >(Some(notification@))
                    &&& events::notification_content(
                        final(self).received@,
                        chunk@.len() == 0,
                    ) matches Some(content) && bytes::is_text_of(notification.body@, content)
                },
                Ok(None) => notification_so_far(final(self).received@, chunk@.len() == 0) == Ok::<
                    Option<EventNotificationView>,
                    Failure,
                >(None),
                Err(e) => notification_so_far(final(self).received@, chunk@.len() == 0) == Err::<
                    Option<EventNotificationView>,
                    _,
                >(e),
            },
    {
        let eof = chunk.len() == 0;
        let ghost before = self.received@;
        self.received.extend_from_slice(chunk);
        assert(self.received@ =~= before + chunk@);

        if self.received.len() > MAX_HTTP_RESPONSE_SIZE {
            return Err(Failure::InvalidResponse(InvalidResponseKind::ResponseTooLarge));
        }
        match parse_notify_request(self.received.as_slice(), eof) {
            Ok(notification) => Ok(notification),
            Err(e) => Err(Failure::InvalidResponse(e)),
        }
    }
}

/// The outcome of reading chunk by chunk until the notification is complete, the connection
/// being closed after the last chunk.
pub open spec fn read_chunks(received: Seq<u8>, chunks: Seq<Seq<u8>>) -> Result<
    Option<EventNotificationView>,
    Failure,
>
    decreases chunks.len(),
{
    if chunks.len() == 0 {
        notification_so_far(received, true)
    } else {
        let now = received + chunks[0];
        match notification_so_far(now, false) {
            Ok(None) => read_chunks(now, chunks.skip(1)),
            other => other,
        }
    }
}

/// A notification does not depend on how it is split into reads: it is that of parsing
/// everything that arrives, as long as that is not too large.
pub proof fn law_notification_reads_can_be_split_anywhere(
    received: Seq<u8>,
    chunks: Seq<Seq<u8>>,
)
    requires
        received.len() + exchange::joined(chunks).len() <= MAX_HTTP_RESPONSE_SIZE,
    ensures
        read_chunks(received, chunks) == notification_so_far(
            received + exchange::joined(chunks),
            true,
        ),
        read_chunks(received, chunks) != Ok::<Option<EventNotificationView>, Failure>(None),
    decreases chunks.len(),
{
    events::law_notification_end_is_conclusive(received + exchange::joined(chunks));
    if chunks.len() == 0 {
        assert(received + exchange::joined(chunks) =~= received);
    } else {
        let now = received + chunks[0];
        let more = exchange::joined(chunks.skip(1));
        assert(now + more =~= received + exchange::joined(chunks));
        if events::notify_request(now, false) == Ok::<
            Option<EventNotificationView>,
            InvalidResponseKind,
        >(None) {
            law_notification_reads_can_be_split_anywhere(now, chunks.skip(1));
        } else {
            events::law_notification_is_final(now, more, true);
        }
    }
}

/// Whether a notification is an event of the subscription with the given identifier.
pub open spec fn belongs_to(notification: EventNotificationView, sid: Seq<char>) -> bool {
    text::eq_ignore_case(notification.method, "NOTIFY"@) && notification.sid == Some(sid)
}

/// An event notification read from the callback listener.
#[derive(Clone, Copy, Debug, PartialEq, Eq, Structural)]
pub enum Notification {
    /// The connection did not carry an event for our subscription.
    NotOurs,

    /// An event for our subscription, with the values it carried.
    Event {
        /// The external IP address of the gateway, if the event carried one.
        external_ip: Option<IpAddr>,

        /// The event sequence number, if the event carried one.
        seq: Option<u32>,
    },
}

impl EventNotification {
    /// Whether this is an event of the subscription with the given identifier.
    pub fn is_ours(&self, expected_sid: &str) -> (ours: bool)
        ensures
            ours == belongs_to(self@, expected_sid@),
    {
        let method = chars_of(self.method.as_str());
        let all = scan::whole(method.as_slice());
        if !span_eq_ignore_case(method.as_slice(), all, "NOTIFY") {
            return false;
        }
        match &self.sid {
            Some(sid) => {
                let chars = chars_of(sid.as_str());
                let all = scan::whole(chars.as_slice());
                span_is(chars.as_slice(), all, expected_sid)
            },
            None => false,
        }
    }

    /// The response to the notification: events for our subscription are acknowledged, others
    /// are rejected as the architecture specifies.
    pub fn acknowledgement(&self, expected_sid: &str) -> (response: String)
        ensures
            response@ == "HTTP/1.1 "@ + (if belongs_to(self@, expected_sid@) {
                "200 OK"@
            } else {
                "412 Precondition Failed"@
            }) + "\r\nContent-Length: 0\r\nConnection: close\r\n\r\n"@,
    {
        let mut response = "HTTP/1.1 ".to_owned();
        if self.is_ours(expected_sid) {
            response.append("200 OK");
        } else {
            response.append("412 Precondition Failed");
        }
        response.append("\r\nContent-Length: 0\r\nConnection: close\r\n\r\n");
        response
    }

    /// The text of the external IP address that the event carries.
    /// The initial event carries all evented variables, later events only the changed ones.
    pub fn address_text(&self) -> (address: Option<&str>)
        ensures
            match address {
                Some(a) => xml::tag_value(self@.body, "ExternalIPAddress"@) == Some(a@),
                None => xml::tag_value(self@.body, "ExternalIPAddress"@) is None,
            },
    {
        find_tag_value(self.body.as_str(), "ExternalIPAddress")
    }

    /// The event that the notification carries for the subscription with the given identifier.
    /// `parsed` is the IP address that `address_text` parses to. It is used when there is such a
    /// text and it is not empty: gateways without an established WAN connection may report an
    /// empty address.
    pub fn read_notification(&self, expected_sid: &str, parsed: Option<IpAddr>) -> (read:
        Notification)
        ensures
            read == (if belongs_to(self@, expected_sid@) {
                Notification::Event {
                    external_ip: match xml::tag_value(self@.body, "ExternalIPAddress"@) {
                        Some(value) => if value.len() == 0 {
                            Some(IpAddr::spec_unspecified())
                        } else {
                            parsed
                        },
                        None => None,
                    },
                    seq: self.seq,
                }
            } else {
                Notification::NotOurs
            }),
    {
        if !self.is_ours(expected_sid) {
            return Notification::NotOurs;
        }
        let external_ip = match self.address_text() {
            Some(value) => if value.is_empty() {
                Some(IpAddr::unspecified())
            } else {
                parsed
            },
            None => None,
        };
        Notification::Event { external_ip, seq: self.seq }
    }
}

/// A subscription lasts for the half hour that is asked for, unless the gateway grants a number of
/// seconds. Any other value of the header, such as one that grants it without end, is no number.
pub proof fn law_subscriptions_last_half_an_hour(value: Seq<char>)
    ensures
        subscription_timeout(None) == 30 * 60,
        EVENT_TIMEOUT_SECONDS == 30 * 60,
        subscription_timeout(Some(value)) != 30 * 60 ==> {
            &&& value.len() > 7
            &&& text::eq_ignore_case(value.take(7), "SECOND-"@)
            &&& text::parse_unsigned(value.skip(7), 10, u32::MAX as nat) == Some(
                subscription_timeout(Some(value)),
            )
        },
{
    reveal_strlit("Second-");
    reveal_strlit("SECOND-");
    if value.len() >= 7 && text::eq_ignore_case(value.take(7), "Second-"@) {
        assert(text::eq_ignore_case("Second-"@, "SECOND-"@)) by {
            text::lemma_letter('e', 'E', 'e');
            text::lemma_letter('c', 'C', 'c');
            text::lemma_letter('o', 'O', 'o');
            text::lemma_letter('n', 'N', 'n');
            text::lemma_letter('d', 'D', 'd');
        }
        assert forall|i: int| 0 <= i < 7 implies text::ascii_lower(#[trigger] value.take(7)[i])
            == text::ascii_lower("SECOND-"@[i]) by {
            assert(text::ascii_lower("Second-"@[i]) == text::ascii_lower("SECOND-"@[i]));
        }
        if value.len() == 7 {
            assert(value.skip(7).len() == 0);
        }
    }
}

/// A notification is an event of a subscription exactly when its method is NOTIFY, in capital or
/// small letters, and its identifier is that of the subscription, letter by letter.
pub proof fn law_notifications_belong_to_their_subscription(
    notification: EventNotificationView,
    sid: Seq<char>,
)
    ensures
        belongs_to(notification, sid) <==> {
            &&& notification.sid matches Some(given) && given == sid
            &&& notification.method.len() == 6
            &&& notification.method[0] == 'N' || notification.method[0] == 'n'
            &&& notification.method[1] == 'O' || notification.method[1] == 'o'
            &&& notification.method[2] == 'T' || notification.method[2] == 't'
            &&& notification.method[3] == 'I' || notification.method[3] == 'i'
            &&& notification.method[4] == 'F' || notification.method[4] == 'f'
            &&& notification.method[5] == 'Y' || notification.method[5] == 'y'
        },
{
    reveal_strlit("NOTIFY");
    let method = notification.method;
    if method.len() == 6 {
        text::lemma_letter(method[0], 'N', 'n');
        text::lemma_letter(method[1], 'O', 'o');
        text::lemma_letter(method[2], 'T', 't');
        text::lemma_letter(method[3], 'I', 'i');
        text::lemma_letter(method[4], 'F', 'f');
        text::lemma_letter(method[5], 'Y', 'y');
        let name = "NOTIFY"@;
        assert(name[0] == 'N' && name[1] == 'O' && name[2] == 'T' && name[3] == 'I' && name[4]
            == 'F' && name[5] == 'Y');
    }
}

/// A notification is taken up to a size of 256 KiB, and is too large above it, whatever it holds.
pub proof fn law_notifications_are_limited(received: Seq<u8>, eof: bool)
    ensures
        received.len() > 262_144 ==> notification_so_far(received, eof) == Err::<
            Option<EventNotificationView>,
            _,
        >(Failure::InvalidResponse(InvalidResponseKind::ResponseTooLarge)),
        received.len() <= 262_144 ==> match events::notify_request(received, eof) {
            Ok(notification) => notification_so_far(received, eof) == Ok::<_, Failure>(
                notification,
            ),
            Err(e) => notification_so_far(received, eof) == Err::<Option<EventNotificationView>, _>(
                Failure::InvalidResponse(e),
            ),
        },
{
}

} // verus!
