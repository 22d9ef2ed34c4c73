//! Reading the response of an HTTP exchange from a stream.

use vstd::prelude::*;

use crate::bytes;
use crate::upnp::failure::{Failure, InvalidResponseKind};
use crate::upnp::http;
use crate::upnp::http::{parse_http_response, HttpResponse, HttpResponseView};
use crate::upnp::MAX_HTTP_RESPONSE_SIZE;

verus! {

/// What is known of a response after some of it was received, `Ok(None)` while it is incomplete.
pub open spec fn response_so_far(received: Seq<u8>, eof: bool) -> Result<
    Option<HttpResponseView>,
    Failure,
> {
    if received.len() > MAX_HTTP_RESPONSE_SIZE {
        Err(Failure::InvalidResponse(InvalidResponseKind::ResponseTooLarge))
    } else {
        match http::http_response(received, eof) {
            Ok(response) => Ok(response),
            Err(e) => Err(Failure::InvalidResponse(e)),
        }
    }
}

/// Collects a response as it is read from a connection.
/// We always request `Connection: close`, but not all gateways honor it, so the response is
/// parsed incrementally instead of expecting the connection to close.
#[derive(Debug)]
pub struct ResponseReader {
    /// The bytes received so far.
    pub received: Vec<u8>,
}

impl ResponseReader {
    /// A reader which has not received anything.
    pub fn new() -> (reader: ResponseReader)
        ensures
            reader.received@ == Seq::<u8>::empty(),
    {
        ResponseReader { received: Vec::new() }
    }

    /// Take the bytes of one read from the connection, an empty read meaning that the connection
    /// has closed. Returns the response once it is complete.
    pub fn receive(&mut self, chunk: &[u8]) -> (outcome: Result<Option<HttpResponse>, Failure>)
        ensures
            final(self).received@ == old(self).received@ + chunk@,
            match outcome {
                Ok(Some(response)) => {
                    &&& response_so_far(final(self).received@, chunk@.len() == 0) == Ok::<
                        _,
                        Failure,
                    >(Some(response@))
                    &&& http::response_content(final(self).received@, chunk@.len() == 0) matches Some(
                        content,
                    ) && bytes::is_text_of(response.body@, content)
                },
                Ok(None) => response_so_far(final(self).received@, chunk@.len() == 0) == Ok::<
                    Option<HttpResponseView>,
                    Failure,
                >(None),
                Err(e) => response_so_far(final(self).received@, chunk@.len() == 0) == Err::<
                    Option<HttpResponseView>,
                    _,
                >(e),
            },
    {
        let eof = chunk.len() == 0;
        let ghost before = self.received@;
        self.received.extend_from_slice(chunk);
        assert(self.received@ =~= before + chunk@);

        if self.received.len() > MAX_HTTP_RESPONSE_SIZE {
            return Err(Failure::InvalidResponse(InvalidResponseKind::ResponseTooLarge));
        }
        match parse_http_response(self.received.as_slice(), eof) {
            Ok(response) => Ok(response),
            Err(e) => Err(Failure::InvalidResponse(e)),
        }
    }
}

/// Everything that a sequence of reads delivers.
pub open spec fn joined(chunks: Seq<Seq<u8>>) -> Seq<u8>
    decreases chunks.len(),
{
    if chunks.len() == 0 {
        seq![]
    } else {
        chunks[0] + joined(chunks.skip(1))
    }
}

/// The outcome of reading chunk by chunk until the response is complete, the connection being
/// closed after the last chunk.
pub open spec fn read_response(received: Seq<u8>, chunks: Seq<Seq<u8>>) -> Result<
    Option<HttpResponseView>,
    Failure,
>
    decreases chunks.len(),
{
    if chunks.len() == 0 {
        response_so_far(received, true)
    } else {
        let now = received + chunks[0];
        match response_so_far(now, false) {
            Ok(None) => read_response(now, chunks.skip(1)),
            other => other,
        }
    }
}

/// The outcome of an exchange does not depend on how the response is split into reads: it is
/// that of parsing everything that arrives, as long as that is not too large.
pub proof fn law_reads_can_be_split_anywhere(received: Seq<u8>, chunks: Seq<Seq<u8>>)
    requires
        received.len() + joined(chunks).len() <= MAX_HTTP_RESPONSE_SIZE,
    ensures
        read_response(received, chunks) == response_so_far(received + joined(chunks), true),
        read_response(received, chunks) != Ok::<Option<HttpResponseView>, Failure>(None),
    decreases chunks.len(),
{
    http::law_end_is_conclusive(received + joined(chunks));
    if chunks.len() == 0 {
        assert(received + joined(chunks) =~= received);
    } else {
        let now = received + chunks[0];
        let more = joined(chunks.skip(1));
        assert(now + more =~= received + joined(chunks));
        if http::http_response(now, false) == Ok::<Option<HttpResponseView>, InvalidResponseKind>(
            None,
        ) {
            law_reads_can_be_split_anywhere(now, chunks.skip(1));
        } else {
            http::law_response_is_final(now, more, true);
        }
    }
}

/// A response is taken up to a size of 256 KiB, and is too large above it, whatever it holds.
pub proof fn law_responses_are_limited(received: Seq<u8>, eof: bool)
    ensures
        received.len() > 262_144 ==> response_so_far(received, eof) == Err::<
            Option<HttpResponseView>,
            _,
        >(Failure::InvalidResponse(InvalidResponseKind::ResponseTooLarge)),
        received.len() <= 262_144 ==> match http::http_response(received, eof) {
            Ok(response) => response_so_far(received, eof) == Ok::<_, Failure>(response),
            Err(e) => response_so_far(received, eof) == Err::<Option<HttpResponseView>, _>(
                Failure::InvalidResponse(e),
            ),
        },
{
}

} // verus!
