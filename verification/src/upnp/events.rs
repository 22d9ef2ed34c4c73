//! Event subscriptions, through which a gateway reports changes of its state.

use vstd::prelude::*;
use vstd::slice::*;
use vstd::string::*;
use vstd::utf8::*;

use crate::bytes;
use crate::bytes::decode_text;
use crate::scan;
use crate::scan::{chars_of, line_spans, span_number, word_span};
use crate::text;
use crate::text::Span;
use crate::upnp::failure::InvalidResponseKind;
use crate::upnp::http;
use crate::upnp::http::{
    check_lengths, decode_chunked, find_head_separator, framed_content, incomplete,
    last_header_value, read_chunked, read_content_length, span_text,
};

verus! {

/// An event notification request received on the callback listener.
#[derive(Debug)]
pub struct EventNotification {
    /// The request method, expected to be `NOTIFY`.
    pub method: String,

    /// The subscription identifier the event belongs to.
    pub sid: Option<String>,

    /// The event sequence number: `0` for the initial event, counting upward for later
    /// events and wrapping back to `1`. A gap means events were lost.
    pub seq: Option<u32>,

    /// The property set carried by the event.
    pub body: String,
}

/// What an event notification says.
pub struct EventNotificationView {
    pub method: Seq<char>,
    pub sid: Option<Seq<char>>,
    pub seq: Option<nat>,
    pub body: Seq<char>,
}

/// An optional number.
pub open spec fn optional_number(n: Option<u32>) -> Option<nat> {
    match n {
        Some(k) => Some(k as nat),
        None => None,
    }
}

impl View for EventNotification {
    type V = EventNotificationView;

    open spec fn view(&self) -> EventNotificationView {
        EventNotificationView {
            method: self.method@,
            sid: http::optional_text(self.sid),
            seq: optional_number(self.seq),
            body: self.body@,
        }
    }
}

/// The method of a request head.
pub open spec fn head_method(lines: Seq<Seq<char>>) -> Option<Seq<char>> {
    if lines.len() > 0 {
        text::word(lines[0], 0)
    } else {
        None
    }
}

/// The sequence number that the headers give.
pub open spec fn sequence_number(headers: Seq<Seq<char>>) -> Option<nat> {
    match http::last_header(headers, "seq"@) {
        Some(value) => text::parse_unsigned(value, 10, u32::MAX as nat),
        None => None,
    }
}

/// The body of a request, given what has arrived after its head. Unlike a response, a request
/// without explicit framing has an empty body.
pub open spec fn request_body(headers: Seq<Seq<char>>, body: Seq<u8>, eof: bool) -> Result<
    Option<Seq<u8>>,
    InvalidResponseKind,
> {
    if http::is_chunked(headers) {
        match http::dechunk(body) {
            Ok(None) => http::unfinished(eof),
            other => other,
        }
    } else {
        let length = match http::content_length(headers) {
            Some(n) => n,
            None => 0,
        };
        if length <= body.len() {
            Ok(Some(body.take(length as int)))
        } else if eof {
            Ok(Some(body))
        } else {
            Ok(None)
        }
    }
}

/// The notification made up of a method, headers, and what has arrived of the body.
pub open spec fn notification_with(
    method: Seq<char>,
    headers: Seq<Seq<char>>,
    body: Seq<u8>,
    eof: bool,
) -> Result<Option<EventNotificationView>, InvalidResponseKind> {
    if !http::lengths_are_valid(headers) {
        Err(InvalidResponseKind::HttpResponse)
    } else {
        match request_body(headers, body, eof) {
            Err(e) => Err(e),
            Ok(None) => Ok(None),
            Ok(Some(content)) => Ok(
                Some(
                    EventNotificationView {
                        method,
                        sid: http::last_header(headers, "sid"@),
                        seq: sequence_number(headers),
                        body: bytes::lossy_text(content),
                    },
                ),
            ),
        }
    }
}

/// The notification that a request makes up, `Ok(None)` while it is incomplete.
pub open spec fn notify_request(raw: Seq<u8>, eof: bool) -> Result<
    Option<EventNotificationView>,
    InvalidResponseKind,
> {
    match http::head_separator(raw) {
        None => http::unfinished(eof),
        Some((end, length)) => {
            let head = raw.take(end);
            let lines = text::lines(decode_utf8(head));
            if !valid_utf8(head) {
                Err(InvalidResponseKind::HttpResponse)
            } else {
                match head_method(lines) {
                    None => Err(InvalidResponseKind::HttpResponse),
                    Some(method) => notification_with(
                        method,
                        lines.skip(1),
                        raw.skip(end + length),
                        eof,
                    ),
                }
            }
        },
    }
}

/// The bytes of the body of a request made up of headers and what has arrived of the body.
pub open spec fn content_with(headers: Seq<Seq<char>>, body: Seq<u8>, eof: bool) -> Option<Seq<u8>> {
    match request_body(headers, body, eof) {
        Ok(content) => content,
        Err(_) => None,
    }
}

/// The bytes of the body of the notification that a request makes up, if it makes one up.
pub open spec fn notification_content(raw: Seq<u8>, eof: bool) -> Option<Seq<u8>> {
    match http::head_separator(raw) {
        None => None,
        Some((end, length)) => content_with(
            text::lines(decode_utf8(raw.take(end))).skip(1),
            raw.skip(end + length),
            eof,
        ),
    }
}

/// Try to parse an event notification request, returning `Ok(None)` if it is incomplete.
/// `eof` indicates that no more data will arrive, making an incomplete request an error.
#[verifier::rlimit(60)]
pub fn parse_notify_request(raw: &[u8], eof: bool) -> (parsed: Result<
    Option<EventNotification>,
    InvalidResponseKind,
>)
    ensures
        match parsed {
            Ok(Some(notification)) => {
                &&& notify_request(raw@, eof) == Ok::<_, InvalidResponseKind>(Some(notification@))
                &&& notification_content(raw@, eof) matches Some(content) && bytes::is_text_of(
                    notification.body@,
                    content,
                )
            },
            Ok(None) => notify_request(raw@, eof) == Ok::<
                Option<EventNotificationView>,
                InvalidResponseKind,
            >(None),
            Err(e) => e is HttpResponse && notify_request(raw@, eof) == Err::<
                Option<EventNotificationView>,
                _,
            >(e),
        },
{
    // Wait for the header separator before parsing, accepting bare line feeds as in responses.
    let (head_end, separator_len): (usize, usize) = match find_head_separator(raw) {
        Some(separator) => separator,
        None => {
            return incomplete(eof);
        },
    };
    let received: usize = raw.len();
    let head_bytes = slice_subrange(raw, 0, head_end);
    let body = slice_subrange(raw, head_end + separator_len, received);
    proof {
        assert(head_bytes@ =~= raw@.take(head_end as int));
        assert(body@ =~= raw@.skip(head_end + separator_len));
    }
    let head = match decode_text(head_bytes) {
        Some(head) => head,
        None => {
            return Err(InvalidResponseKind::HttpResponse);
        },
    };
    let chars = chars_of(head);
    let lines = line_spans(chars.as_slice());

    // Parse the method from the request line, e.g. `NOTIFY / HTTP/1.1`.
    if lines.len() == 0 {
        return Err(InvalidResponseKind::HttpResponse);
    }
    let method = match word_span(chars.as_slice(), lines[0], 0) {
        Some(method) => head.substring_char(method.start, method.end).to_owned(),
        None => {
            return Err(InvalidResponseKind::HttpResponse);
        },
    };
    read_notify_request(head, chars.as_slice(), &lines, method, body, eof)
}

/// The notification made up of a method, the headers after the request line, and what has
/// arrived of the body.
fn read_notify_request(
    head: &str,
    chars: &[char],
    lines: &Vec<Span>,
    method: String,
    body: &[u8],
    eof: bool,
) -> (parsed: Result<Option<EventNotification>, InvalidResponseKind>)
    requires
        chars@ == head@,
        lines@.len() > 0,
        forall|i: int| 0 <= i < lines@.len() ==> (#[trigger] lines@[i]).within(chars@.len()),
    ensures
        ({
            let spec = notification_with(
                method@,
                scan::covered(lines@, head@).skip(1),
                body@,
                eof,
            );
            match parsed {
                Ok(Some(notification)) => {
                    &&& spec == Ok::<_, InvalidResponseKind>(Some(notification@))
                    &&& content_with(scan::covered(lines@, head@).skip(1), body@, eof) matches Some(
                        content,
                    ) && bytes::is_text_of(notification.body@, content)
                },
                Ok(None) => spec == Ok::<Option<EventNotificationView>, InvalidResponseKind>(None),
                Err(e) => e is HttpResponse && spec == Err::<Option<EventNotificationView>, _>(e),
            }
        }),
{
    // Read the headers relevant to event delivery. Header names are case-insensitive.
    if !check_lengths(chars, lines, 1) {
        return Err(InvalidResponseKind::HttpResponse);
    }
    let chunked = read_chunked(chars, lines, 1);
    let length: usize = match read_content_length(chars, lines, 1) {
        Some(n) => n,
        None => 0,
    };

    // Wait for the full property set, accepting a shorter body once the connection has closed.
    // Unlike responses, a request without explicit framing has an empty body.
    let content: Vec<u8> = if chunked {
        match decode_chunked(body) {
            Ok(Some(content)) => content,
            Ok(None) => {
                return incomplete(eof);
            },
            Err(e) => {
                return Err(e);
            },
        }
    } else {
        match framed_content(body, Some(length), eof) {
            Some(content) => content,
            None => {
                return Ok(None);
            },
        }
    };

    let sid = last_header_value(chars, lines, 1, "sid");
    let seq: Option<u32> = match last_header_value(chars, lines, 1, "seq") {
        Some(value) => match span_number(chars, value, 10, u32::MAX as u64) {
            Some(n) => Some(n as u32),
            None => None,
        },
        None => None,
    };
    Ok(
        Some(
            EventNotification {
                method,
                sid: span_text(head, sid),
                seq,
                body: bytes::lossy_string(content.as_slice()),
            },
        ),
    )
}

/// Once a notification is complete, or found to be invalid, while more could still arrive,
/// neither what arrives after it nor the end of the connection changes it.
pub proof fn law_notification_is_final(raw: Seq<u8>, more: Seq<u8>, eof: bool)
    requires
        notify_request(raw, false) != Ok::<Option<EventNotificationView>, InvalidResponseKind>(None),
    ensures
        notify_request(raw + more, eof) == notify_request(raw, false),
{
    let t = raw + more;
    http::lemma_head_separator(raw);
    http::lemma_head_separator_extend(raw, more);
    let (end, length) = http::head_separator(raw).unwrap();
    let body = raw.skip(end + length);
    assert(t.take(end) =~= raw.take(end));
    assert(t.skip(end + length) =~= body + more);
    let headers = text::lines(decode_utf8(raw.take(end))).skip(1);
    if http::is_chunked(headers) {
        if http::dechunk(body) != Ok::<Option<Seq<u8>>, InvalidResponseKind>(None) {
            http::law_dechunk_is_final(body, more);
        }
    } else {
        let n = match http::content_length(headers) {
            Some(n) => n,
            None => 0,
        };
        if n <= body.len() {
            assert((body + more).take(n as int) =~= body.take(n as int));
        }
    }
}

/// When the connection has closed, there is always an answer: a notification or an error.
pub proof fn law_notification_end_is_conclusive(raw: Seq<u8>)
    ensures
        notify_request(raw, true) != Ok::<Option<EventNotificationView>, InvalidResponseKind>(None),
{
}

/// A notification is read as the first word of its first line, the values of its last headers, and
/// its body. A sequence number that is no number is none.
pub proof fn law_notifications_are_read(raw: Seq<u8>, eof: bool)
    ensures
        ({
            let request = notify_request(raw, eof);
            match http::head_separator(raw) {
                None => (request is Err <==> eof) && (request is Ok ==> request->Ok_0 is None),
                Some((end, length)) => {
                    let lines = text::lines(decode_utf8(raw.take(end)));
                    let body = raw.skip(end + length);
                    let headers = lines.skip(1);
                    if !valid_utf8(raw.take(end)) || lines.len() == 0 || text::word(
                        lines[0],
                        0,
                    ) is None || !http::lengths_are_valid(headers) {
                        request is Err
                    } else {
                        &&& request is Err <==> request_body(headers, body, eof) is Err
                        &&& request_body(headers, body, eof) matches Ok(None) ==> (
                        request matches Ok(None))
                        &&& request_body(headers, body, eof) matches Ok(Some(content)) ==> (
                        request matches Ok(Some(read)) && {
                            &&& read.method == text::word(lines[0], 0).unwrap()
                            &&& read.sid == http::last_header(headers, "sid"@)
                            &&& read.seq == (match http::last_header(headers, "seq"@) {
                                Some(value) => text::parse_unsigned(value, 10, 0xFFFF_FFFF),
                                None => None,
                            })
                            &&& read.body == bytes::lossy_text(content)
                        })
                    }
                },
            }
        }),
{
}

/// The body of a notification has the length that its headers give, and is empty if they give none.
/// It is waited for, unless the connection has closed, when what has arrived is all of it. A chunked
/// body is the one that its chunks carry, which must be complete by then.
pub proof fn law_notification_bodies_are_framed(
    headers: Seq<Seq<char>>,
    content: Seq<u8>,
    more: Seq<u8>,
    eof: bool,
)
    ensures
        !http::is_chunked(headers) ==> {
            &&& http::content_length(headers) == Some(content.len()) ==> request_body(
                headers,
                content + more,
                eof,
            ) == Ok::<_, InvalidResponseKind>(Some(content))
            &&& http::content_length(headers) == Some(content.len() + more.len()) && more.len() > 0
                ==> request_body(headers, content, false) == Ok::<
                Option<Seq<u8>>,
                InvalidResponseKind,
            >(None) && request_body(headers, content, true) == Ok::<_, InvalidResponseKind>(
                Some(content),
            )
            &&& http::content_length(headers) is None ==> (request_body(headers, more, eof) matches Ok(
                Some(c),
            ) && c.len() == 0)
        },
        http::is_chunked(headers) ==> {
            &&& http::dechunk(more) matches Ok(Some(c)) ==> request_body(headers, more, eof) == Ok::<
                _,
                InvalidResponseKind,
            >(Some(c))
            &&& http::dechunk(more) matches Ok(None) ==> (request_body(headers, more, eof) is Err
                <==> eof)
            &&& http::dechunk(more) is Err ==> request_body(headers, more, eof) is Err
        },
{
    assert((content + more).take(content.len() as int) =~= content);
}

/// The text of a notification is that of the bytes of its body, which follow its head.
pub proof fn law_text_is_that_of_the_body(raw: Seq<u8>, eof: bool)
    ensures
        notify_request(raw, eof) matches Ok(Some(read)) ==> (notification_content(raw, eof) matches Some(
            content,
        ) && read.body == bytes::lossy_text(content)),
        http::head_separator(raw) matches Some((end, length)) ==> (request_body(
            text::lines(decode_utf8(raw.take(end))).skip(1),
            raw.skip(end + length),
            eof,
        ) matches Ok(content) ==> notification_content(raw, eof) == content),
{
}

} // verus!
