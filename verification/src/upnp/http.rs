//! The HTTP messages exchanged with gateways.
//!
//! Messages arrive in pieces over a stream, so a message is parsed again whenever more of it has
//! been read. What a message means is stated over the bytes received so far.

use vstd::prelude::*;
use vstd::slice::*;
use vstd::string::*;
use vstd::utf8::*;

use crate::bytes;
use crate::bytes::{decode_text, find_bytes};
use crate::scan;
use crate::scan::{
    chars_of, first_position, line_spans, span_eq_ignore_case, span_number, span_starts_with,
    trim_span, word_span,
};
use crate::text;
use crate::text::Span;
use crate::upnp::failure::InvalidResponseKind;

verus! {

/// The line ending of HTTP messages.
pub open spec fn crlf() -> Seq<u8> {
    seq![13u8, 10u8]
}

/// The empty line that separates the head of a message from its body.
pub open spec fn crlf_crlf() -> Seq<u8> {
    seq![13u8, 10u8, 13u8, 10u8]
}

/// The separator used by devices which terminate lines with a bare line feed.
pub open spec fn lf_lf() -> Seq<u8> {
    seq![10u8, 10u8]
}

/// The position and the length of the separator between the head and the body of a message,
/// whichever form of it comes first.
pub open spec fn head_separator(raw: Seq<u8>) -> Option<(int, int)> {
    match (text::find(raw, crlf_crlf()), text::find(raw, lf_lf())) {
        (Some(c), Some(l)) => if l < c {
            Some((l, 2))
        } else {
            Some((c, 4))
        },
        (Some(c), None) => Some((c, 4)),
        (None, Some(l)) => Some((l, 2)),
        (None, None) => None,
    }
}

/// The separator lies within the message.
pub proof fn lemma_head_separator(raw: Seq<u8>)
    ensures
        head_separator(raw) matches Some((end, length)) ==> 0 <= end && 0 < length && end + length
            <= raw.len(),
{
    text::lemma_find_from(raw, crlf_crlf(), 0);
    text::lemma_find_from(raw, lf_lf(), 0);
}

/// The trimmed name and value of a header line.
pub open spec fn header(line: Seq<char>) -> Option<(Seq<char>, Seq<char>)> {
    match text::first_index(line, ':') {
        Some(i) => Some((text::trim(line.take(i)), text::trim(line.skip(i + 1)))),
        None => None,
    }
}

/// Whether a line is a header of the given name, which is not case-sensitive.
pub open spec fn is_header(line: Seq<char>, name: Seq<char>) -> bool {
    header(line) matches Some((n, _)) && text::eq_ignore_case(n, name)
}

/// The value of the last header of the given name.
pub open spec fn last_header(lines: Seq<Seq<char>>, name: Seq<char>) -> Option<Seq<char>>
    decreases lines.len(),
{
    if lines.len() == 0 {
        None
    } else if is_header(lines.last(), name) {
        Some(header(lines.last()).unwrap().1)
    } else {
        last_header(lines.drop_last(), name)
    }
}

/// The length that a content length header gives, if it gives one.
pub open spec fn length_value(value: Seq<char>) -> Option<nat> {
    text::parse_unsigned(value, 10, usize::MAX as nat)
}

/// Whether every content length header gives a length.
pub open spec fn lengths_are_valid(lines: Seq<Seq<char>>) -> bool {
    forall|i: int|
        0 <= i < lines.len() && is_header(#[trigger] lines[i], "content-length"@) ==> length_value(
            header(lines[i]).unwrap().1,
        ) is Some
}

/// The length of the body that the headers give.
pub open spec fn content_length(lines: Seq<Seq<char>>) -> Option<nat> {
    match last_header(lines, "content-length"@) {
        Some(value) => length_value(value),
        None => None,
    }
}

/// Whether the headers declare a chunked body.
pub open spec fn is_chunked(lines: Seq<Seq<char>>) -> bool {
    last_header(lines, "transfer-encoding"@) matches Some(value) && text::eq_ignore_case(
        value,
        "chunked"@,
    )
}

/// The part of a chunk size line before its extensions.
pub open spec fn before_extensions(line: Seq<char>) -> Seq<char> {
    match text::first_index(line, ';') {
        Some(i) => line.take(i),
        None => line,
    }
}

/// The size that a chunk size line gives in hexadecimal.
pub open spec fn chunk_size(line: Seq<u8>) -> Option<nat> {
    if valid_utf8(line) {
        text::parse_unsigned(
            text::trim(before_extensions(decode_utf8(line))),
            16,
            usize::MAX as nat,
        )
    } else {
        None
    }
}

/// The body that a sequence of chunks carries, or `Ok(None)` while chunks are missing.
pub open spec fn dechunk(raw: Seq<u8>) -> Result<Option<Seq<u8>>, InvalidResponseKind>
    decreases raw.len(),
    via dechunk_decreases
{
    match text::find(raw, crlf()) {
        None => Ok(None),
        Some(line_end) => match chunk_size(raw.take(line_end)) {
            None => Err(InvalidResponseKind::HttpResponse),
            Some(size) => {
                let start = line_end + 2;
                if size == 0 {
                    Ok(Some(seq![]))
                } else if start + size + 2 > raw.len() {
                    Ok(None)
                } else if raw.subrange(start + size, start + size + 2) != crlf() {
                    Err(InvalidResponseKind::HttpResponse)
                } else {
                    match dechunk(raw.skip(start + size + 2)) {
                        Ok(Some(rest)) => Ok(Some(raw.subrange(start, start + size) + rest)),
                        other => other,
                    }
                }
            },
        },
    }
}

#[via_fn]
proof fn dechunk_decreases(raw: Seq<u8>) {
    text::lemma_find_from(raw, crlf(), 0);
}

/// An unfinished message, which is invalid once no more of it can arrive.
pub open spec fn unfinished<T>(eof: bool) -> Result<Option<T>, InvalidResponseKind> {
    if eof {
        Err(InvalidResponseKind::HttpResponse)
    } else {
        Ok(None)
    }
}

/// The body of a response, given what has arrived after its head.
pub open spec fn response_body(lines: Seq<Seq<char>>, body: Seq<u8>, eof: bool) -> Result<
    Option<Seq<u8>>,
    InvalidResponseKind,
> {
    if is_chunked(lines) {
        match dechunk(body) {
            Ok(None) => unfinished(eof),
            other => other,
        }
    } else {
        match content_length(lines) {
            Some(length) => if length <= body.len() {
                Ok(Some(body.take(length as int)))
            } else if eof {
                Ok(Some(body))
            } else {
                Ok(None)
            },
            None => if eof {
                Ok(Some(body))
            } else {
                Ok(None)
            },
        }
    }
}

/// The status code of a status line.
pub open spec fn status_code(line: Seq<char>) -> Option<nat> {
    if text::matches_at(line, 0, "HTTP/"@) {
        match text::word(line, 1) {
            Some(code) => text::parse_unsigned(code, 10, u16::MAX as nat),
            None => None,
        }
    } else {
        None
    }
}

/// The status code of a message head.
pub open spec fn head_status(lines: Seq<Seq<char>>) -> Option<nat> {
    if lines.len() > 0 {
        status_code(lines[0])
    } else {
        None
    }
}

/// What a response says.
pub struct HttpResponseView {
    pub status: nat,
    pub location: Option<Seq<char>>,
    pub sid: Option<Seq<char>>,
    pub timeout: Option<Seq<char>>,
    pub body: Seq<char>,
}

/// The response that a message makes up, `Ok(None)` while it is incomplete. Interim responses
/// are skipped in favor of the response that follows them.
pub open spec fn http_response(raw: Seq<u8>, eof: bool) -> Result<
    Option<HttpResponseView>,
    InvalidResponseKind,
>
    decreases raw.len(),
    via http_response_decreases
{
    match head_separator(raw) {
        None => unfinished(eof),
        Some((end, length)) => {
            let head = raw.take(end);
            let body = raw.skip(end + length);
            let lines = text::lines(decode_utf8(head));
            if !valid_utf8(head) {
                Err(InvalidResponseKind::HttpResponse)
            } else {
                match head_status(lines) {
                    None => Err(InvalidResponseKind::HttpResponse),
                    Some(status) => if 100 <= status < 200 {
                        http_response(body, eof)
                    } else {
                        final_response(status, lines.skip(1), body, eof)
                    },
                }
            }
        },
    }
}

#[via_fn]
proof fn http_response_decreases(raw: Seq<u8>, eof: bool) {
    lemma_head_separator(raw);
}

/// The response made up of a status other than an interim one, headers, and what has arrived of
/// the body.
pub open spec fn final_response(
    status: nat,
    headers: Seq<Seq<char>>,
    body: Seq<u8>,
    eof: bool,
) -> Result<Option<HttpResponseView>, InvalidResponseKind> {
    if !lengths_are_valid(headers) {
        Err(InvalidResponseKind::HttpResponse)
    } else {
        match response_body(headers, body, eof) {
            Err(e) => Err(e),
            Ok(None) => Ok(None),
            Ok(Some(content)) => Ok(
                Some(
                    HttpResponseView {
                        status,
                        location: last_header(headers, "location"@),
                        sid: last_header(headers, "sid"@),
                        timeout: last_header(headers, "timeout"@),
                        body: bytes::lossy_text(content),
                    },
                ),
            ),
        }
    }
}

/// The bytes of the body of the response made up of headers and what has arrived of the body.
pub open spec fn final_content(headers: Seq<Seq<char>>, body: Seq<u8>, eof: bool) -> Option<Seq<u8>> {
    match response_body(headers, body, eof) {
        Ok(content) => content,
        Err(_) => None,
    }
}

/// The bytes of the body of the response that a message makes up, if it makes one up.
pub open spec fn response_content(raw: Seq<u8>, eof: bool) -> Option<Seq<u8>>
    decreases raw.len(),
    via response_content_decreases
{
    match head_separator(raw) {
        None => None,
        Some((end, length)) => {
            let body = raw.skip(end + length);
            let lines = text::lines(decode_utf8(raw.take(end)));
            match head_status(lines) {
                None => None,
                Some(status) => if 100 <= status < 200 {
                    response_content(body, eof)
                } else {
                    final_content(lines.skip(1), body, eof)
                },
            }
        },
    }
}

#[via_fn]
proof fn response_content_decreases(raw: Seq<u8>, eof: bool) {
    lemma_head_separator(raw);
}

/// The parts of an HTTP response used by this module.
#[derive(Debug)]
pub struct HttpResponse {
    /// The status code of the response.
    pub status: u16,

    /// The value of the location header, used to follow description redirects.
    pub location: Option<String>,

    /// The value of the SID header, identifying an event subscription.
    pub sid: Option<String>,

    /// The value of the timeout header, e.g. `Second-1800`, used by event subscriptions.
    pub timeout: Option<String>,

    /// The response body.
    pub body: String,
}

/// The text of an optional string.
pub open spec fn optional_text(s: Option<String>) -> Option<Seq<char>> {
    match s {
        Some(t) => Some(t@),
        None => None,
    }
}

impl View for HttpResponse {
    type V = HttpResponseView;

    open spec fn view(&self) -> HttpResponseView {
        HttpResponseView {
            status: self.status as nat,
            location: optional_text(self.location),
            sid: optional_text(self.sid),
            timeout: optional_text(self.timeout),
            body: self.body@,
        }
    }
}

/// Finds the separator between the head and the body of a message.
pub fn find_head_separator(raw: &[u8]) -> (separator: Option<(usize, usize)>)
    ensures
        match separator {
            Some((end, length)) => head_separator(raw@) == Some((end as int, length as int)) && 0
                < length && end + length <= raw@.len(),
            None => head_separator(raw@) is None,
        },
{
    let standard: [u8; 4] = [13, 10, 13, 10];
    let bare: [u8; 2] = [10, 10];
    assert(standard@ =~= crlf_crlf());
    assert(bare@ =~= lf_lf());
    let crlf_end = find_bytes(raw, &standard);
    let lf_end = find_bytes(raw, &bare);
    match crlf_end {
        Some(c) => match lf_end {
            Some(l) => if l < c {
                Some((l, 2))
            } else {
                Some((c, 4))
            },
            None => Some((c, 4)),
        },
        None => match lf_end {
            Some(l) => Some((l, 2)),
            None => None,
        },
    }
}

/// The span of the value of a line, when the line is a header of the given name.
pub fn header_value(chars: &[char], line: Span, name: &str) -> (value: Option<Span>)
    requires
        line.within(chars@.len()),
    ensures
        match value {
            Some(v) => {
                &&& v.within(chars@.len())
                &&& is_header(line.of(chars@), name@)
                &&& header(line.of(chars@)).unwrap().1 == v.of(chars@)
            },
            None => !is_header(line.of(chars@), name@),
        },
{
    match first_position(chars, line, ':') {
        Some(i) => {
            let name_span = Span { start: line.start, end: i };
            let value_span = Span { start: i + 1, end: line.end };
            proof {
                let k = i - line.start;
                assert(line.of(chars@).take(k) =~= name_span.of(chars@));
                assert(line.of(chars@).skip(k + 1) =~= value_span.of(chars@));
            }
            if span_eq_ignore_case(chars, trim_span(chars, name_span), name) {
                Some(trim_span(chars, value_span))
            } else {
                None
            }
        },
        None => None,
    }
}

/// The span of the value of the last header of the given name, among the lines from `from` on.
pub fn last_header_value(chars: &[char], lines: &Vec<Span>, from: usize, name: &str) -> (value:
    Option<Span>)
    requires
        from <= lines@.len(),
        forall|i: int| 0 <= i < lines@.len() ==> (#[trigger] lines@[i]).within(chars@.len()),
    ensures
        match value {
            Some(v) => v.within(chars@.len()) && last_header(
                scan::covered(lines@, chars@).skip(from as int),
                name@,
            ) == Some(v.of(chars@)),
            None => last_header(scan::covered(lines@, chars@).skip(from as int), name@) is None,
        },
{
    let ghost all = scan::covered(lines@, chars@);
    let mut i: usize = lines.len();
    assert(all.subrange(from as int, i as int) =~= all.skip(from as int));
    while i > from
        invariant
            from <= i <= lines@.len(),
            all == scan::covered(lines@, chars@),
            forall|j: int| 0 <= j < lines@.len() ==> (#[trigger] lines@[j]).within(chars@.len()),
            last_header(all.skip(from as int), name@) == last_header(
                all.subrange(from as int, i as int),
                name@,
            ),
        decreases i,
    {
        let ghost part = all.subrange(from as int, i as int);
        i -= 1;
        assert(part.last() == lines@[i as int].of(chars@));
        assert(part.drop_last() =~= all.subrange(from as int, i as int));
        match header_value(chars, lines[i], name) {
            Some(v) => {
                return Some(v);
            },
            None => {},
        }
    }
    None
}

/// Whether every content length header among the lines from `from` on gives a length.
pub fn check_lengths(chars: &[char], lines: &Vec<Span>, from: usize) -> (valid: bool)
    requires
        from <= lines@.len(),
        forall|i: int| 0 <= i < lines@.len() ==> (#[trigger] lines@[i]).within(chars@.len()),
    ensures
        valid == lengths_are_valid(scan::covered(lines@, chars@).skip(from as int)),
{
    let ghost headers = scan::covered(lines@, chars@).skip(from as int);
    let mut i: usize = from;
    while i < lines.len()
        invariant
            from <= i <= lines@.len(),
            headers == scan::covered(lines@, chars@).skip(from as int),
            forall|j: int| 0 <= j < lines@.len() ==> (#[trigger] lines@[j]).within(chars@.len()),
            forall|j: int|
                0 <= j < i - from && is_header(#[trigger] headers[j], "content-length"@)
                    ==> length_value(header(headers[j]).unwrap().1) is Some,
        decreases lines@.len() - i,
    {
        assert(headers[i - from] == lines@[i as int].of(chars@));
        match header_value(chars, lines[i], "content-length") {
            Some(v) => {
                if span_number(chars, v, 10, usize::MAX as u64).is_none() {
                    return false;
                }
            },
            None => {},
        }
        i += 1;
    }
    true
}

/// The length of the body that the headers from line `from` on give.
pub fn read_content_length(chars: &[char], lines: &Vec<Span>, from: usize) -> (length: Option<
    usize,
>)
    requires
        from <= lines@.len(),
        forall|i: int| 0 <= i < lines@.len() ==> (#[trigger] lines@[i]).within(chars@.len()),
    ensures
        match length {
            Some(n) => content_length(scan::covered(lines@, chars@).skip(from as int)) == Some(
                n as nat,
            ),
            None => content_length(scan::covered(lines@, chars@).skip(from as int)) is None,
        },
{
    match last_header_value(chars, lines, from, "content-length") {
        Some(v) => match span_number(chars, v, 10, usize::MAX as u64) {
            Some(n) => Some(n as usize),
            None => None,
        },
        None => None,
    }
}

/// Whether the headers from line `from` on declare a chunked body.
pub fn read_chunked(chars: &[char], lines: &Vec<Span>, from: usize) -> (chunked: bool)
    requires
        from <= lines@.len(),
        forall|i: int| 0 <= i < lines@.len() ==> (#[trigger] lines@[i]).within(chars@.len()),
    ensures
        chunked == is_chunked(scan::covered(lines@, chars@).skip(from as int)),
{
    match last_header_value(chars, lines, from, "transfer-encoding") {
        Some(v) => span_eq_ignore_case(chars, v, "chunked"),
        None => false,
    }
}

/// The size that a chunk size line gives in hexadecimal.
fn read_chunk_size(line: &[u8]) -> (size: Option<usize>)
    ensures
        match size {
            Some(n) => chunk_size(line@) == Some(n as nat),
            None => chunk_size(line@) is None,
        },
{
    match decode_text(line) {
        Some(t) => {
            let chars = chars_of(t);
            let all = scan::whole(chars.as_slice());
            let span = match first_position(chars.as_slice(), all, ';') {
                Some(i) => {
                    assert(t@.take(i as int) =~= t@.subrange(0, i as int));
                    Span { start: 0, end: i }
                },
                None => all,
            };
            assert(span.of(t@) == before_extensions(t@));
            let trimmed = trim_span(chars.as_slice(), span);
            match span_number(chars.as_slice(), trimmed, 16, usize::MAX as u64) {
                Some(n) => Some(n as usize),
                None => None,
            }
        },
        None => None,
    }
}

/// Decode an HTTP chunked response body, returning `Ok(None)` if it is incomplete.
pub fn decode_chunked(raw: &[u8]) -> (decoded: Result<Option<Vec<u8>>, InvalidResponseKind>)
    ensures
        match decoded {
            Ok(Some(body)) => dechunk(raw@) == Ok::<_, InvalidResponseKind>(Some(body@)),
            Ok(None) => dechunk(raw@) == Ok::<Option<Seq<u8>>, InvalidResponseKind>(None),
            Err(e) => e is HttpResponse && dechunk(raw@) == Err::<Option<Seq<u8>>, _>(e),
        },
{
    let separator: [u8; 2] = [13, 10];
    assert(separator@ =~= crlf());
    let mut body: Vec<u8> = Vec::new();
    let mut rest: &[u8] = raw;
    loop
        invariant
            separator@ == crlf(),
            dechunk(raw@) == (match dechunk(rest@) {
                Ok(Some(more)) => Ok(Some(body@ + more)),
                other => other,
            }),
        decreases rest@.len(),
    {
        // Each chunk begins with its size in hexadecimal, optionally followed by extensions we ignore.
        let line_end: usize = match find_bytes(rest, &separator) {
            Some(i) => i,
            None => {
                return Ok(None);
            },
        };
        let line = slice_subrange(rest, 0, line_end);
        assert(line@ =~= rest@.take(line_end as int));
        let size: usize = match read_chunk_size(line) {
            Some(n) => n,
            None => {
                return Err(InvalidResponseKind::HttpResponse);
            },
        };

        // A chunk of size zero terminates the body. Any trailers which follow are ignored.
        if size == 0 {
            assert(body@ + Seq::<u8>::empty() =~= body@);
            return Ok(Some(body));
        }

        // Read the chunk data and its trailing separator, waiting for more data if incomplete.
        let available: usize = rest.len();
        let start: usize = line_end + 2;
        if size > available - start {
            return Ok(None);
        }
        let end: usize = start + size;
        if available - end < 2 {
            return Ok(None);
        }
        let data = slice_subrange(rest, start, end);
        let trailer = slice_subrange(rest, end, end + 2);
        if trailer[0] != 13 || trailer[1] != 10 {
            assert(trailer@ != crlf()) by {
                assert(crlf()[0] == 13 && crlf()[1] == 10);
            }
            return Err(InvalidResponseKind::HttpResponse);
        }
        assert(trailer@ =~= crlf());
        let ghost before = body@;
        body.extend_from_slice(data);
        assert(body@ =~= before + data@);
        let ghost previous = rest@;
        rest = slice_subrange(rest, end + 2, available);
        proof {
            assert(rest@ =~= previous.skip(end + 2));
            if let Ok(Some(more)) = dechunk(rest@) {
                assert(before + (data@ + more) =~= body@ + more);
            }
        }
    }
}

/// An incomplete message, which is only an error once no more data will arrive.
pub fn incomplete<T>(eof: bool) -> (r: Result<Option<T>, InvalidResponseKind>)
    ensures
        r == unfinished::<T>(eof),
{
    if eof {
        Err(InvalidResponseKind::HttpResponse)
    } else {
        Ok(None)
    }
}

/// The text of an optional span.
pub fn span_text(s: &str, span: Option<Span>) -> (extracted: Option<String>)
    requires
        span matches Some(x) ==> x.within(s@.len()),
    ensures
        match span {
            Some(x) => optional_text(extracted) == Some(x.of(s@)),
            None => extracted is None,
        },
{
    match span {
        Some(x) => Some(s.substring_char(x.start, x.end).to_owned()),
        None => None,
    }
}

/// Try to parse an HTTP response, returning `Ok(None)` if it is incomplete and more data should be read.
/// `eof` indicates that no more data will arrive, making an incomplete response an error.
/// Handles the `Content-Length` and chunked framing used by gateway HTTP servers.
#[verifier::spinoff_prover]
#[verifier::rlimit(60)]
pub fn parse_http_response(raw: &[u8], eof: bool) -> (parsed: Result<
    Option<HttpResponse>,
    InvalidResponseKind,
>)
    ensures
        match parsed {
            Ok(Some(response)) => {
                &&& http_response(raw@, eof) == Ok::<_, InvalidResponseKind>(Some(response@))
                &&& response_content(raw@, eof) matches Some(content) && bytes::is_text_of(
                    response.body@,
                    content,
                )
            },
            Ok(None) => http_response(raw@, eof) == Ok::<Option<HttpResponseView>, InvalidResponseKind>(
                None,
            ),
            Err(e) => e is HttpResponse && http_response(raw@, eof) == Err::<
                Option<HttpResponseView>,
                _,
            >(e),
        },
    decreases raw@.len(),
{
    // Wait for the header separator before parsing. Some simple device implementations
    // terminate lines with a bare line feed rather than the specified `\r\n`.
    let (head_end, separator_len): (usize, usize) = match find_head_separator(raw) {
        Some(separator) => separator,
        None => {
            return incomplete(eof);
        },
    };
    let received: usize = raw.len();
    let head_bytes = slice_subrange(raw, 0, head_end);
    let body = slice_subrange(raw, head_end + separator_len, received);
    proof {
        assert(head_bytes@ =~= raw@.take(head_end as int));
        assert(body@ =~= raw@.skip(head_end + separator_len));
    }
    let head = match decode_text(head_bytes) {
        Some(head) => head,
        None => {
            return Err(InvalidResponseKind::HttpResponse);
        },
    };
    let chars = chars_of(head);
    let lines = line_spans(chars.as_slice());

    // Parse the status code from the status line, e.g. `HTTP/1.1 200 OK`.
    let status: u16 = match read_head_status(chars.as_slice(), &lines) {
        Some(status) => status,
        None => {
            return Err(InvalidResponseKind::HttpResponse);
        },
    };

    // Skip interim responses, which some devices send unrequested, and parse the response that follows.
    if 100 <= status && status < 200 {
        return parse_http_response(body, eof);
    }

    read_final_response(head, chars.as_slice(), &lines, status, body, eof)
}

/// The response made up of a status, the headers after the status line, and what has arrived of
/// the body.
fn read_final_response(
    head: &str,
    chars: &[char],
    lines: &Vec<Span>,
    status: u16,
    body: &[u8],
    eof: bool,
) -> (parsed: Result<Option<HttpResponse>, InvalidResponseKind>)
    requires
        chars@ == head@,
        lines@.len() > 0,
        forall|i: int| 0 <= i < lines@.len() ==> (#[trigger] lines@[i]).within(chars@.len()),
    ensures
        ({
            let spec = final_response(
                status as nat,
                scan::covered(lines@, head@).skip(1),
                body@,
                eof,
            );
            match parsed {
                Ok(Some(response)) => {
                    &&& spec == Ok::<_, InvalidResponseKind>(Some(response@))
                    &&& final_content(scan::covered(lines@, head@).skip(1), body@, eof) matches Some(
                        content,
                    ) && bytes::is_text_of(response.body@, content)
                },
                Ok(None) => spec == Ok::<Option<HttpResponseView>, InvalidResponseKind>(None),
                Err(e) => e is HttpResponse && spec == Err::<Option<HttpResponseView>, _>(e),
            }
        }),
{
    // Determine how the response body is framed. Header names are case-insensitive.
    let ghost headers = scan::covered(lines@, head@).skip(1);
    if !check_lengths(chars, lines, 1) {
        return Err(InvalidResponseKind::HttpResponse);
    }
    let chunked = read_chunked(chars, lines, 1);
    let content_length = read_content_length(chars, lines, 1);

    // Extract the response body, or wait for the framing to indicate a complete response.
    let content: Vec<u8> = if chunked {
        match decode_chunked(body) {
            Ok(Some(content)) => content,
            Ok(None) => {
                return incomplete(eof);
            },
            Err(e) => {
                return Err(e);
            },
        }
    } else {
        match framed_content(body, content_length, eof) {
            Some(content) => content,
            None => {
                return Ok(None);
            },
        }
    };
    assert(response_body(headers, body@, eof) == Ok::<_, InvalidResponseKind>(Some(content@)));

    let location = last_header_value(chars, lines, 1, "location");
    let sid = last_header_value(chars, lines, 1, "sid");
    let timeout = last_header_value(chars, lines, 1, "timeout");
    Ok(
        Some(
            HttpResponse {
                status,
                location: span_text(head, location),
                sid: span_text(head, sid),
                timeout: span_text(head, timeout),
                body: bytes::lossy_string(content.as_slice()),
            },
        ),
    )
}

/// The status code of a message head.
fn read_head_status(chars: &[char], lines: &Vec<Span>) -> (status: Option<u16>)
    requires
        forall|i: int| 0 <= i < lines@.len() ==> (#[trigger] lines@[i]).within(chars@.len()),
    ensures
        match status {
            Some(n) => head_status(scan::covered(lines@, chars@)) == Some(n as nat) && lines@.len()
                > 0,
            None => head_status(scan::covered(lines@, chars@)) is None,
        },
{
    if lines.len() == 0 {
        return None;
    }
    let line = lines[0];
    if !span_starts_with(chars, line, "HTTP/") {
        return None;
    }
    match word_span(chars, line, 1) {
        Some(code) => match span_number(chars, code, 10, u16::MAX as u64) {
            Some(n) => Some(n as u16),
            None => None,
        },
        None => None,
    }
}

/// The content of a body that is not chunked, or `None` while it is incomplete.
/// Devices sometimes overstate the length of the entity they send, and without explicit framing
/// the body is terminated by the connection closing, so what was received is accepted once the
/// connection has closed.
pub fn framed_content(body: &[u8], length: Option<usize>, eof: bool) -> (content: Option<Vec<u8>>)
    ensures
        match content {
            Some(c) => match length {
                Some(n) => if n <= body@.len() {
                    c@ == body@.take(n as int)
                } else {
                    eof && c@ == body@
                },
                None => eof && c@ == body@,
            },
            None => !eof && (length matches Some(n) ==> n > body@.len()),
        },
{
    match length {
        Some(n) => if n <= body.len() {
            assert(body@.subrange(0, n as int) =~= body@.take(n as int));
            Some(slice_to_vec(slice_subrange(body, 0, n)))
        } else if eof {
            Some(slice_to_vec(body))
        } else {
            None
        },
        None => if eof {
            Some(slice_to_vec(body))
        } else {
            None
        },
    }
}

/// A first match stays the first match when more follows.
proof fn lemma_find_extend<T>(s: Seq<T>, more: Seq<T>, pattern: Seq<T>)
    requires
        text::find(s, pattern) is Some,
    ensures
        text::find(s + more, pattern) == text::find(s, pattern),
{
    text::lemma_find_from(s, pattern, 0);
    let i = text::find(s, pattern).unwrap();
    let t = s + more;
    assert forall|j: int| 0 <= j <= i implies text::matches_at(t, j, pattern)
        == #[trigger] text::matches_at(s, j, pattern) by {
        assert(t.subrange(j, j + pattern.len()) =~= s.subrange(j, j + pattern.len()));
    }
    assert(text::matches_at(t, i, pattern));
    assert forall|j: int| 0 <= j < i implies !#[trigger] text::matches_at(t, j, pattern) by {
        assert(!text::matches_at(s, j, pattern));
    }
    text::lemma_find_is(t, pattern, 0, i);
}

/// A separator that has arrived stays the separator when more of the message arrives.
pub proof fn lemma_head_separator_extend(raw: Seq<u8>, more: Seq<u8>)
    requires
        head_separator(raw) is Some,
    ensures
        head_separator(raw + more) == head_separator(raw),
{
    let t = raw + more;
    text::lemma_find_from(raw, crlf_crlf(), 0);
    text::lemma_find_from(raw, lf_lf(), 0);
    text::lemma_find_from(t, crlf_crlf(), 0);
    text::lemma_find_from(t, lf_lf(), 0);
    if text::find(raw, crlf_crlf()) is Some {
        lemma_find_extend(raw, more, crlf_crlf());
    }
    if text::find(raw, lf_lf()) is Some {
        lemma_find_extend(raw, more, lf_lf());
    }
    if text::find(raw, crlf_crlf()) is None {
        // A standard separator completed by what follows begins after the bare one.
        let l = text::find(raw, lf_lf()).unwrap();
        if let Some(c) = text::find(t, crlf_crlf()) {
            assert(raw.subrange(l, l + 2)[1] == 10 && raw.subrange(l, l + 2)[0] == 10);
            if c < l {
                assert(t.subrange(c, c + 4)[1] == 10 && t.subrange(c, c + 4)[2] == 13);
                if c + 4 <= raw.len() {
                    assert(raw.subrange(c, c + 4) =~= t.subrange(c, c + 4));
                    assert(text::matches_at(raw, c, crlf_crlf()));
                } else {
                    assert(c == l - 1);
                    assert(t[l + 1] == raw[l + 1]);
                    assert(false);
                }
            }
        }
    }
    if text::find(raw, lf_lf()) is None {
        let c = text::find(raw, crlf_crlf()).unwrap();
        if let Some(l) = text::find(t, lf_lf()) {
            if l < c {
                assert(raw.subrange(l, l + 2) =~= t.subrange(l, l + 2));
                assert(text::matches_at(raw, l, lf_lf()));
            }
        }
    }
}

/// Once a chunked body is complete, or found to be invalid, what follows it does not matter.
pub proof fn law_dechunk_is_final(raw: Seq<u8>, more: Seq<u8>)
    requires
        dechunk(raw) != Ok::<Option<Seq<u8>>, InvalidResponseKind>(None),
    ensures
        dechunk(raw + more) == dechunk(raw),
    decreases raw.len(),
{
    let t = raw + more;
    text::lemma_find_from(raw, crlf(), 0);
    lemma_find_extend(raw, more, crlf());
    let line_end = text::find(raw, crlf()).unwrap();
    assert(t.take(line_end) =~= raw.take(line_end));
    if let Some(size) = chunk_size(raw.take(line_end)) {
        let start = line_end + 2;
        if size > 0 {
            let end = start + size;
            assert(t.subrange(end, end + 2) =~= raw.subrange(end, end + 2));
            assert(t.subrange(start, end) =~= raw.subrange(start, end));
            assert(t.skip(end + 2) =~= raw.skip(end + 2) + more);
            if raw.subrange(end, end + 2) == crlf() {
                law_dechunk_is_final(raw.skip(end + 2), more);
            }
        }
    }
}

/// A chunk contributes its data to the body, and a chunk of size zero ends the body.
pub proof fn law_chunk_is_decoded(size_line: Seq<u8>, data: Seq<u8>, rest: Seq<u8>)
    requires
        !size_line.contains(13u8),
        chunk_size(size_line) == Some(data.len()),
    ensures
        dechunk(size_line + crlf() + data + crlf() + rest) == (if data.len() == 0 {
            Ok(Some(seq![]))
        } else {
            match dechunk(rest) {
                Ok(Some(more)) => Ok(Some(data + more)),
                other => other,
            }
        }),
{
    let raw = size_line + crlf() + data + crlf() + rest;
    let line_end = size_line.len() as int;
    assert(raw.subrange(line_end, line_end + 2) =~= crlf());
    assert forall|j: int| 0 <= j < line_end implies !#[trigger] text::matches_at(raw, j, crlf()) by {
        assert(raw[j] == size_line[j]);
        if text::matches_at(raw, j, crlf()) {
            assert(raw.subrange(j, j + 2)[0] == raw[j]);
        }
    }
    text::lemma_find_is(raw, crlf(), 0, line_end);
    assert(raw.take(line_end) =~= size_line);
    let start = line_end + 2;
    let end = start + data.len();
    assert(raw.subrange(end, end + 2) =~= crlf());
    assert(raw.subrange(start, end) =~= data);
    assert(raw.skip(end + 2) =~= rest);
}

/// Once a response is complete, or found to be invalid, while more could still arrive, neither
/// what arrives after it nor the end of the connection changes it.
pub proof fn law_response_is_final(raw: Seq<u8>, more: Seq<u8>, eof: bool)
    requires
        http_response(raw, false) != Ok::<Option<HttpResponseView>, InvalidResponseKind>(None),
    ensures
        http_response(raw + more, eof) == http_response(raw, false),
    decreases raw.len(),
{
    let t = raw + more;
    lemma_head_separator(raw);
    lemma_head_separator_extend(raw, more);
    let (end, length) = head_separator(raw).unwrap();
    let body = raw.skip(end + length);
    assert(t.take(end) =~= raw.take(end));
    assert(t.skip(end + length) =~= body + more);
    if valid_utf8(raw.take(end)) {
        let lines = text::lines(decode_utf8(raw.take(end)));
        if let Some(status) = head_status(lines) {
            if 100 <= status < 200 {
                law_response_is_final(body, more, eof);
            } else {
                let headers = lines.skip(1);
                if lengths_are_valid(headers) {
                    if is_chunked(headers) {
                        law_dechunk_is_final(body, more);
                    } else if let Some(n) = content_length(headers) {
                        assert((body + more).take(n as int) =~= body.take(n as int));
                    }
                }
            }
        }
    }
}

/// When the connection has closed, there is always an answer: a response or an error.
pub proof fn law_end_is_conclusive(raw: Seq<u8>)
    ensures
        http_response(raw, true) != Ok::<Option<HttpResponseView>, InvalidResponseKind>(None),
    decreases raw.len(),
{
    lemma_head_separator(raw);
    if let Some((end, length)) = head_separator(raw) {
        law_end_is_conclusive(raw.skip(end + length));
    }
}

/// A header line is read as its name and its value, which the first colon separates, both without
/// the whitespace around them. A line without a colon is no header.
pub proof fn law_header_is_read(name: Seq<char>, value: Seq<char>)
    requires
        !name.contains(':'),
    ensures
        header(name + seq![':'] + value) == Some((text::trim(name), text::trim(value))),
        header(name) is None,
        forall|wanted: Seq<char>|
            #[trigger] is_header(name + seq![':'] + value, wanted) <==> text::eq_ignore_case(
                text::trim(name),
                wanted,
            ),
        forall|wanted: Seq<char>| !#[trigger] is_header(name, wanted),
{
    let line = name + seq![':'] + value;
    let n = name.len() as int;
    assert forall|j: int| 0 <= j < n implies name[j] != ':' by {
        assert(name.contains(name[j]));
    }
    assert forall|j: int| 0 <= j < n implies line[j] != ':' by {
        assert(line[j] == name[j]);
    }
    text::lemma_first_index_is(line, ':', n);
    text::lemma_first_index_none(name, ':');
    assert(line.take(n) =~= name);
    assert(line.skip(n + 1) =~= value);
}

/// Of several headers with a name, the last one counts. Other lines do not matter.
pub proof fn law_last_header_counts(lines: Seq<Seq<char>>, line: Seq<char>, name: Seq<char>)
    ensures
        last_header(Seq::<Seq<char>>::empty(), name) is None,
        is_header(line, name) ==> last_header(lines.push(line), name) == Some(
            header(line).unwrap().1,
        ),
        !is_header(line, name) ==> last_header(lines.push(line), name) == last_header(lines, name),
{
    assert(lines.push(line).drop_last() =~= lines);
}

/// The status code is the number in the second word of a line that begins with the name of the
/// protocol. A line that begins otherwise has none.
pub proof fn law_status_is_read(version: Seq<char>, code: nat, rest: Seq<char>)
    requires
        forall|k: int| 0 <= k < version.len() ==> !text::is_ascii_whitespace(#[trigger] version[k]),
    ensures
        status_code("HTTP/"@ + version + seq![' '] + text::decimal(code) + seq![' '] + rest) == (if code
            < 65536 {
            Some(code)
        } else {
            None
        }),
        status_code("HTTP/"@ + version + seq![' '] + text::decimal(code)) == (if code < 65536 {
            Some(code)
        } else {
            None
        }),
        status_code("HTTP/"@ + version) is None,
        (rest.len() < 5 || rest.take(5) != "HTTP/"@) ==> status_code(rest) is None,
{
    reveal_strlit("HTTP/");
    reveal_strlit(" ");
    assert(" "@ =~= seq![' ']);
    let protocol = "HTTP/"@ + version;
    let digits = text::decimal(code);
    text::lemma_decimal_characters(code);
    assert forall|k: int| 0 <= k < protocol.len() implies !text::is_ascii_whitespace(
        #[trigger] protocol[k],
    ) by {
        if k < 5 {
            assert(protocol[k] == "HTTP/"@[k]);
        } else {
            assert(protocol[k] == version[k - 5]);
        }
    }
    assert forall|k: int| 0 <= k < digits.len() implies !text::is_ascii_whitespace(
        #[trigger] digits[k],
    ) by {
        assert('0' <= digits[k] <= '9');
        text::law_whitespace(digits[k]);
    }
    if code < 65536 {
        text::law_decimal_is_read(code, u16::MAX as nat);
    } else {
        text::law_decimal_is_read(code, code);
    }
    let with_reason = digits + " "@ + rest;
    text::law_word_is_read(digits, rest, 0);
    text::law_word_is_read(protocol, with_reason, 0);
    text::law_word_is_read(protocol, digits, 0);
    let line = protocol + seq![' '] + digits + seq![' '] + rest;
    assert(line =~= protocol + " "@ + with_reason);
    assert(line.subrange(0, 5) =~= "HTTP/"@);
    let short = protocol + seq![' '] + digits;
    assert(short =~= protocol + " "@ + digits);
    assert(short.subrange(0, 5) =~= "HTTP/"@);
    assert(protocol.subrange(0, 5) =~= "HTTP/"@);
    if rest.len() >= 5 {
        assert(rest.subrange(0, 5) =~= rest.take(5));
    }
}

/// A body has the length that the last content length header gives, written as a number, unless the
/// last transfer encoding header says that it is chunked.
pub proof fn law_framing_is_read(lines: Seq<Seq<char>>, length: nat, value: Seq<char>)
    requires
        length <= usize::MAX,
    ensures
        content_length(lines.push("Content-Length: "@ + text::decimal(length))) == Some(length),
        is_chunked(lines.push("Transfer-Encoding: "@ + value)) <==> text::eq_ignore_case(
            text::trim(value),
            "chunked"@,
        ),
        is_chunked(lines.push("Content-Length: "@ + text::decimal(length))) == is_chunked(lines),
        content_length(lines.push("Transfer-Encoding: "@ + value)) == content_length(lines),
        content_length(Seq::<Seq<char>>::empty()) is None,
        !is_chunked(Seq::<Seq<char>>::empty()),
{
    let digits = text::decimal(length);
    text::law_decimal_is_read(length, usize::MAX as nat);
    text::lemma_decimal_characters(length);
    let long = "Content-Length: "@ + digits;
    let encoding = "Transfer-Encoding: "@ + value;
    let length_name = "content-length"@;
    let encoding_name = "transfer-encoding"@;
    lemma_padded(digits);
    lemma_framing_names(digits, value);
    law_last_header_counts(lines, long, length_name);
    law_last_header_counts(lines, long, encoding_name);
    law_last_header_counts(lines, encoding, length_name);
    law_last_header_counts(lines, encoding, encoding_name);
}

/// A space before a value does not matter.
proof fn lemma_padded(value: Seq<char>)
    ensures
        text::trim(seq![' '] + value) == text::trim(value),
{
    assert((seq![' '] + value).skip(1) =~= value);
    text::law_whitespace(' ');
}

/// The headers that frame a body are told apart.
proof fn lemma_framing_names(digits: Seq<char>, value: Seq<char>)
    ensures
        header("Content-Length: "@ + digits) == Some(("Content-Length"@, text::trim(digits))),
        header("Transfer-Encoding: "@ + value) == Some(("Transfer-Encoding"@, text::trim(value))),
        is_header("Content-Length: "@ + digits, "content-length"@),
        !is_header("Content-Length: "@ + digits, "transfer-encoding"@),
        is_header("Transfer-Encoding: "@ + value, "transfer-encoding"@),
        !is_header("Transfer-Encoding: "@ + value, "content-length"@),
{
    reveal_strlit("Content-Length: ");
    reveal_strlit("Transfer-Encoding: ");
    reveal_strlit("Content-Length");
    reveal_strlit("Transfer-Encoding");
    reveal_strlit("content-length");
    reveal_strlit("transfer-encoding");
    let nothing: Seq<char> = seq![];
    let length_name = "Content-Length"@;
    let encoding_name = "Transfer-Encoding"@;
    text::law_trim_undoes_padding(nothing, length_name, nothing);
    assert(nothing + length_name + nothing =~= length_name);
    text::law_trim_undoes_padding(nothing, encoding_name, nothing);
    assert(nothing + encoding_name + nothing =~= encoding_name);
    law_header_is_read(length_name, seq![' '] + digits);
    law_header_is_read(encoding_name, seq![' '] + value);
    lemma_padded(digits);
    lemma_padded(value);
    assert("Content-Length: "@ + digits =~= length_name + seq![':'] + (seq![' '] + digits));
    assert("Transfer-Encoding: "@ + value =~= encoding_name + seq![':'] + (seq![' '] + value));
    assert(text::eq_ignore_case(length_name, "content-length"@)) by {
        text::lemma_letter('c', 'C', 'c');
        text::lemma_letter('l', 'L', 'l');
    }
    assert(text::eq_ignore_case(encoding_name, "transfer-encoding"@)) by {
        text::lemma_letter('t', 'T', 't');
        text::lemma_letter('e', 'E', 'e');
    }
}

/// A body of a given length is complete once that many bytes have arrived, and what follows it does
/// not belong to it. Before that it is waited for, unless the connection has closed, when what has
/// arrived is all of it. Without a length the body ends when the connection closes.
pub proof fn law_bodies_are_framed(
    lines: Seq<Seq<char>>,
    content: Seq<u8>,
    more: Seq<u8>,
    eof: bool,
)
    requires
        !is_chunked(lines),
    ensures
        content_length(lines) == Some(content.len()) ==> response_body(lines, content + more, eof)
            == Ok::<_, InvalidResponseKind>(Some(content)),
        content_length(lines) == Some(content.len() + more.len()) && more.len() > 0
            ==> response_body(lines, content, false) == Ok::<Option<Seq<u8>>, InvalidResponseKind>(
            None,
        ) && response_body(lines, content, true) == Ok::<_, InvalidResponseKind>(Some(content)),
        content_length(lines) is None ==> response_body(lines, content, false) == Ok::<
            Option<Seq<u8>>,
            InvalidResponseKind,
        >(None) && response_body(lines, content, true) == Ok::<_, InvalidResponseKind>(
            Some(content),
        ),
{
    assert((content + more).take(content.len() as int) =~= content);
}

/// A chunked body is the one that its chunks carry. One whose chunks are missing is waited for, and
/// is invalid once the connection has closed.
pub proof fn law_chunked_bodies_are_decoded(lines: Seq<Seq<char>>, body: Seq<u8>, eof: bool)
    requires
        is_chunked(lines),
    ensures
        dechunk(body) matches Ok(Some(content)) ==> response_body(lines, body, eof) == Ok::<
            _,
            InvalidResponseKind,
        >(Some(content)),
        dechunk(body) matches Ok(None) ==> (response_body(lines, body, eof) is Err <==> eof) && (
        response_body(lines, body, eof) is Ok ==> response_body(lines, body, eof)->Ok_0 is None),
        dechunk(body) is Err ==> response_body(lines, body, eof) is Err,
{
}

/// The head of a message ends at its first empty line, whether its lines end with a carriage return
/// and a line feed or with a line feed alone.
pub proof fn law_heads_end_at_an_empty_line(head: Seq<u8>, body: Seq<u8>, separator: Seq<u8>)
    requires
        separator == seq![13u8, 10u8, 13u8, 10u8] || separator == seq![10u8, 10u8],
        forall|j: int|
            0 <= j < head.len() ==> !#[trigger] text::matches_at(
                head + separator + body,
                j,
                crlf_crlf(),
            ),
        forall|j: int|
            0 <= j < head.len() ==> !#[trigger] text::matches_at(
                head + separator + body,
                j,
                lf_lf(),
            ),
    ensures
        head_separator(head + separator + body) == Some(
            (head.len() as int, separator.len() as int),
        ),
        crlf_crlf() == seq![13u8, 10u8, 13u8, 10u8],
        lf_lf() == seq![10u8, 10u8],
        crlf() == seq![13u8, 10u8],
{
    let raw = head + separator + body;
    let n = head.len() as int;
    assert(raw.subrange(n, n + separator.len()) =~= separator);
    text::lemma_find_is(raw, separator, 0, n);
    text::lemma_find_from(raw, lf_lf(), 0);
    text::lemma_find_from(raw, crlf_crlf(), 0);
    assert(raw[n] == separator[0]);
    if separator.len() == 4 {
        if let Some(l) = text::find(raw, lf_lf()) {
            if l == n {
                assert(raw.subrange(l, l + 2)[0] == raw[n]);
            }
        }
    } else {
        if let Some(c) = text::find(raw, crlf_crlf()) {
            if c == n {
                assert(raw.subrange(c, c + 4)[0] == raw[n]);
            }
        }
    }
}

/// A message is read as the status of its first line, the values of its last headers, and its body.
/// An interim response, whose status is from 100 to 199, is passed over. A head that is no text, or
/// has no status, or a length that is no number, is invalid.
pub proof fn law_responses_are_read(raw: Seq<u8>, eof: bool)
    ensures
        ({
            let response = http_response(raw, eof);
            match head_separator(raw) {
                None => (response is Err <==> eof) && (response is Ok ==> response->Ok_0 is None),
                Some((end, length)) => {
                    let lines = text::lines(decode_utf8(raw.take(end)));
                    let body = raw.skip(end + length);
                    if !valid_utf8(raw.take(end)) || lines.len() == 0 || status_code(
                        lines[0],
                    ) is None {
                        response is Err
                    } else {
                        let status = status_code(lines[0]).unwrap();
                        let headers = lines.skip(1);
                        if 100 <= status <= 199 {
                            response == http_response(body, eof)
                        } else if !lengths_are_valid(headers) {
                            response is Err
                        } else {
                            &&& response is Err <==> response_body(headers, body, eof) is Err
                            &&& response_body(headers, body, eof) matches Ok(None) ==> (
                            response matches Ok(None))
                            &&& response_body(headers, body, eof) matches Ok(Some(content)) ==> (
                            response matches Ok(Some(read)) && {
                                &&& read.status == status
                                &&& read.location == last_header(headers, "location"@)
                                &&& read.sid == last_header(headers, "sid"@)
                                &&& read.timeout == last_header(headers, "timeout"@)
                                &&& read.body == bytes::lossy_text(content)
                            })
                        }
                    }
                },
            }
        }),
{
}

/// A length that is no number makes the headers invalid, and nothing else does.
pub proof fn law_lengths_must_be_numbers(lines: Seq<Seq<char>>, line: Seq<char>, value: Seq<char>)
    ensures
        lengths_are_valid(Seq::<Seq<char>>::empty()),
        lengths_are_valid(lines.push("Content-Length: "@ + value)) <==> lengths_are_valid(lines)
            && text::parse_unsigned(text::trim(value), 10, usize::MAX as nat) is Some,
        !is_header(line, "Content-Length"@) ==> lengths_are_valid(lines.push(line))
            == lengths_are_valid(lines),
{
    let long = "Content-Length: "@ + value;
    lemma_framing_names(value, value);
    assert(is_header(line, "content-length"@) == is_header(line, "Content-Length"@)) by {
        reveal_strlit("content-length");
        reveal_strlit("Content-Length");
        text::lemma_letter('c', 'C', 'c');
        text::lemma_letter('l', 'L', 'l');
        if let Some((n, _)) = header(line) {
            assert forall|i: int| 0 <= i < "content-length"@.len() implies text::ascii_lower(
                #[trigger] "content-length"@[i],
            ) == text::ascii_lower("Content-Length"@[i]) by {}
            assert(text::eq_ignore_case(n, "content-length"@) == text::eq_ignore_case(
                n,
                "Content-Length"@,
            ));
        }
    }
    lemma_lengths_push(lines, long);
    lemma_lengths_push(lines, line);
}

/// Whether headers are valid with one more.
proof fn lemma_lengths_push(lines: Seq<Seq<char>>, line: Seq<char>)
    ensures
        lengths_are_valid(lines.push(line)) <==> lengths_are_valid(lines) && (is_header(
            line,
            "content-length"@,
        ) ==> length_value(header(line).unwrap().1) is Some),
{
    let all = lines.push(line);
    if lengths_are_valid(all) {
        assert forall|i: int|
            0 <= i < lines.len() && is_header(
                #[trigger] lines[i],
                "content-length"@,
            ) implies length_value(header(lines[i]).unwrap().1) is Some by {
            assert(all[i] == lines[i]);
        }
        assert(all[lines.len() as int] == line);
    }
    if lengths_are_valid(lines) {
        assert forall|i: int| 0 <= i < lines.len() implies all[i] == #[trigger] lines[i] by {}
    }
}

/// The text of a response is that of the bytes of its body, which are those of the final response
/// after any interim ones.
pub proof fn law_text_is_that_of_the_body(raw: Seq<u8>, eof: bool)
    ensures
        http_response(raw, eof) matches Ok(Some(read)) ==> (response_content(raw, eof) matches Some(
            content,
        ) && read.body == bytes::lossy_text(content)),
        head_separator(raw) matches Some((end, length)) ==> {
            let lines = text::lines(decode_utf8(raw.take(end)));
            let body = raw.skip(end + length);
            lines.len() > 0 ==> (status_code(lines[0]) matches Some(status) ==> {
                &&& 100 <= status <= 199 ==> response_content(raw, eof) == response_content(
                    body,
                    eof,
                )
                &&& !(100 <= status <= 199) ==> (response_body(lines.skip(1), body, eof) matches Ok(
                    content,
                ) ==> response_content(raw, eof) == content)
            })
        },
    decreases raw.len(),
{
    if let Some((end, length)) = head_separator(raw) {
        lemma_head_separator(raw);
        law_text_is_that_of_the_body(raw.skip(end + length), eof);
    }
}

} // verus!
