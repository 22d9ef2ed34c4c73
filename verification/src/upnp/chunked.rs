//! Bodies that are sent in chunks.

use vstd::prelude::*;
use vstd::utf8::*;

use crate::text;
use crate::upnp::failure::InvalidResponseKind;
use crate::upnp::http;

verus! {

/// A chunk of a body as it is sent.
pub struct Chunk {
    /// The line that gives the size of the chunk, without its ending.
    pub size_line: Seq<u8>,

    /// The data of the chunk.
    pub data: Seq<u8>,
}

impl Chunk {
    /// The size line gives the size of the data, and its own ending is the first.
    pub open spec fn wf(self) -> bool {
        &&& !self.size_line.contains(13u8)
        &&& http::chunk_size(self.size_line) == Some(self.data.len())
    }
}

/// Whether all chunks are well-formed and carry data.
pub open spec fn all_carry_data(chunks: Seq<Chunk>) -> bool {
    forall|i: int| 0 <= i < chunks.len() ==> (#[trigger] chunks[i]).wf() && chunks[i].data.len() > 0
}

/// Chunks as they are sent, followed by the size line of the chunk that ends the body.
pub open spec fn sent(chunks: Seq<Chunk>, last_line: Seq<u8>) -> Seq<u8>
    decreases chunks.len(),
{
    if chunks.len() == 0 {
        last_line + http::crlf()
    } else {
        chunks[0].size_line + http::crlf() + chunks[0].data + http::crlf() + sent(
            chunks.skip(1),
            last_line,
        )
    }
}

/// The data of chunks, put together.
pub open spec fn carried(chunks: Seq<Chunk>) -> Seq<u8>
    decreases chunks.len(),
{
    if chunks.len() == 0 {
        seq![]
    } else {
        chunks[0].data + carried(chunks.skip(1))
    }
}

/// A list of chunks is decoded to the data they carry, whatever trailers follow it.
pub proof fn law_chunks_are_decoded(chunks: Seq<Chunk>, last_line: Seq<u8>, trailers: Seq<u8>)
    requires
        all_carry_data(chunks),
        !last_line.contains(13u8),
        http::chunk_size(last_line) == Some(0nat),
    ensures
        http::dechunk(sent(chunks, last_line) + trailers) == Ok::<_, InvalidResponseKind>(
            Some(carried(chunks)),
        ),
    decreases chunks.len(),
{
    let raw = sent(chunks, last_line) + trailers;
    if chunks.len() == 0 {
        let end = http::crlf() + trailers;
        lemma_size_line_end(last_line, trailers);
        assert(raw =~= last_line + end);
        assert(raw.take(last_line.len() as int) =~= last_line);
    } else {
        let first = chunks[0];
        let rest = sent(chunks.skip(1), last_line) + trailers;
        law_chunks_are_decoded(chunks.skip(1), last_line, trailers);
        http::law_chunk_is_decoded(first.size_line, first.data, rest);
        assert(raw =~= first.size_line + http::crlf() + first.data + http::crlf() + rest);
    }
}

/// The ending of a size line is the first in what is sent.
proof fn lemma_size_line_end(size_line: Seq<u8>, rest: Seq<u8>)
    requires
        !size_line.contains(13u8),
    ensures
        text::find(size_line + (http::crlf() + rest), http::crlf()) == Some(
            size_line.len() as int,
        ),
{
    let raw = size_line + (http::crlf() + rest);
    let end = size_line.len() as int;
    assert(raw.subrange(end, end + 2) =~= http::crlf());
    assert forall|j: int| 0 <= j < end implies !#[trigger] text::matches_at(
        raw,
        j,
        http::crlf(),
    ) by {
        assert(raw[j] == size_line[j]);
        if text::matches_at(raw, j, http::crlf()) {
            assert(raw.subrange(j, j + 2)[0] == raw[j]);
        }
    }
    text::lemma_find_is(raw, http::crlf(), 0, end);
}

/// A size line without its whole ending has no ending.
proof fn lemma_size_line_prefix(size_line: Seq<u8>, raw: Seq<u8>)
    requires
        !size_line.contains(13u8),
        raw.len() < size_line.len() + 2,
        forall|i: int| 0 <= i < raw.len() && i < size_line.len() ==> raw[i] == size_line[i],
    ensures
        text::find(raw, http::crlf()) is None,
{
    assert forall|j: int| 0 <= j implies !#[trigger] text::matches_at(raw, j, http::crlf()) by {
        if text::matches_at(raw, j, http::crlf()) {
            assert(raw.subrange(j, j + 2)[0] == raw[j]);
            assert(raw[j] == size_line[j]);
        }
    }
    text::lemma_find_none(raw, http::crlf(), 0);
}

/// A list of chunks is incomplete as long as any of it is missing.
pub proof fn law_missing_chunks_are_awaited(chunks: Seq<Chunk>, last_line: Seq<u8>, received: int)
    requires
        all_carry_data(chunks),
        !last_line.contains(13u8),
        http::chunk_size(last_line) == Some(0nat),
        0 <= received < sent(chunks, last_line).len(),
    ensures
        http::dechunk(sent(chunks, last_line).take(received)) == Ok::<
            Option<Seq<u8>>,
            InvalidResponseKind,
        >(None),
    decreases chunks.len(),
{
    let all = sent(chunks, last_line);
    let raw = all.take(received);
    if chunks.len() == 0 {
        lemma_size_line_prefix(last_line, raw);
    } else {
        let first = chunks[0];
        let line = first.size_line;
        let start = line.len() + 2;
        let end = start + first.data.len() + 2;
        let rest = sent(chunks.skip(1), last_line);
        if received < start {
            lemma_size_line_prefix(line, raw);
        } else if received < end {
            assert(raw =~= line + (http::crlf() + raw.skip(start as int)));
            lemma_size_line_end(line, raw.skip(start as int));
            assert(raw.take(line.len() as int) =~= line);
        } else {
            let part = rest.take(received - end);
            law_missing_chunks_are_awaited(chunks.skip(1), last_line, received - end);
            http::law_chunk_is_decoded(line, first.data, part);
            assert(raw =~= line + http::crlf() + first.data + http::crlf() + part);
        }
    }
}

/// The size line of a chunk of the given size, in hexadecimal notation.
pub open spec fn hexadecimal_line(size: nat) -> Seq<u8> {
    encode_utf8(text::hexadecimal(size))
}

/// A hexadecimal digit is no character with a meaning of its own in a size line.
proof fn lemma_hexadecimal_character(c: char)
    requires
        text::digit_value(c, 16) is Some,
    ensures
        '\0' <= c <= '\u{7f}',
        c as u32 != 13,
        c != ';',
        !text::is_whitespace(c),
{
}

/// A size line in hexadecimal notation gives that size.
pub proof fn law_hexadecimal_size_is_read(size: nat)
    requires
        size <= usize::MAX,
    ensures
        !hexadecimal_line(size).contains(13u8),
        http::chunk_size(hexadecimal_line(size)) == Some(size),
{
    let digits = text::hexadecimal(size);
    let line = hexadecimal_line(size);
    text::lemma_hexadecimal(size);
    text::law_hexadecimal_is_read(size, usize::MAX as nat);
    encode_utf8_valid_utf8(digits);
    encode_utf8_decode_utf8(digits);
    assert forall|i: int| 0 <= i < digits.len() implies '\0'
        <= #[trigger] digits[i] <= '\u{7f}' && digits[i] as u32 != 13 && digits[i] != ';'
        && !text::is_whitespace(digits[i]) by {
        lemma_hexadecimal_character(digits[i]);
    }
    assert(is_ascii_chars(digits));
    is_ascii_chars_encode_utf8(digits);
    assert forall|i: int| 0 <= i < line.len() implies line[i] != 13u8 by {
        assert(digits[i] as u8 == line[i]);
    }
    text::lemma_first_index_none(digits, ';');
    assert(text::trim_start(digits) == digits);
    assert(text::trim_end(digits) == digits);
}

/// A list of data as chunks with hexadecimal sizes.
pub open spec fn hexadecimal_chunks(pieces: Seq<Seq<u8>>) -> Seq<Chunk> {
    Seq::new(
        pieces.len(),
        |i: int| Chunk { size_line: hexadecimal_line(pieces[i].len()), data: pieces[i] },
    )
}

/// A list of data as it is sent in chunks with hexadecimal sizes.
pub open spec fn chunked(pieces: Seq<Seq<u8>>) -> Seq<u8> {
    sent(hexadecimal_chunks(pieces), hexadecimal_line(0))
}

/// The data of a list, put together.
pub open spec fn together(pieces: Seq<Seq<u8>>) -> Seq<u8>
    decreases pieces.len(),
{
    if pieces.len() == 0 {
        seq![]
    } else {
        pieces[0] + together(pieces.skip(1))
    }
}

/// Chunks made of a list of data carry that data.
proof fn lemma_carried(pieces: Seq<Seq<u8>>)
    ensures
        carried(hexadecimal_chunks(pieces)) == together(pieces),
    decreases pieces.len(),
{
    if pieces.len() > 0 {
        lemma_carried(pieces.skip(1));
        assert(hexadecimal_chunks(pieces).skip(1) =~= hexadecimal_chunks(pieces.skip(1)));
    }
}

/// Decoding gives back what was sent in chunks with hexadecimal sizes: the whole of it, whatever
/// trailers follow, once all of it has arrived, and nothing as long as any of it is missing.
pub proof fn law_chunked_data_is_given_back(
    pieces: Seq<Seq<u8>>,
    trailers: Seq<u8>,
    received: int,
)
    requires
        forall|i: int|
            0 <= i < pieces.len() ==> 0 < (#[trigger] pieces[i]).len() && pieces[i].len()
                <= usize::MAX,
    ensures
        http::dechunk(chunked(pieces) + trailers) == Ok::<_, InvalidResponseKind>(
            Some(together(pieces)),
        ),
        0 <= received < chunked(pieces).len() ==> http::dechunk(chunked(pieces).take(received))
            == Ok::<Option<Seq<u8>>, InvalidResponseKind>(None),
{
    let chunks = hexadecimal_chunks(pieces);
    assert forall|i: int| 0 <= i < chunks.len() implies (#[trigger] chunks[i]).wf()
        && chunks[i].data.len() > 0 by {
        law_hexadecimal_size_is_read(pieces[i].len());
    }
    law_hexadecimal_size_is_read(0);
    law_chunks_are_decoded(chunks, hexadecimal_line(0), trailers);
    lemma_carried(pieces);
    if 0 <= received < chunked(pieces).len() {
        law_missing_chunks_are_awaited(chunks, hexadecimal_line(0), received);
    }
}

/// Extensions behind the size of a chunk, and whitespace around it, do not matter.
pub proof fn law_chunk_extensions_are_ignored(size: nat, extension: Seq<char>)
    requires
        size <= usize::MAX,
    ensures
        http::chunk_size(encode_utf8(text::hexadecimal(size) + seq![';'] + extension)) == Some(size),
        http::chunk_size(encode_utf8(seq![' '] + text::hexadecimal(size) + seq![' '])) == Some(size),
{
    let digits = text::hexadecimal(size);
    let extended = digits + seq![';'] + extension;
    let padded = seq![' '] + digits + seq![' '];
    text::lemma_hexadecimal(size);
    text::law_hexadecimal_is_read(size, usize::MAX as nat);
    encode_utf8_valid_utf8(extended);
    encode_utf8_decode_utf8(extended);
    encode_utf8_valid_utf8(padded);
    encode_utf8_decode_utf8(padded);
    assert forall|i: int| 0 <= i < digits.len() implies #[trigger] digits[i] != ';'
        && !text::is_whitespace(digits[i]) by {
        lemma_hexadecimal_character(digits[i]);
    }
    let n = digits.len() as int;
    assert forall|j: int| 0 <= j < n implies extended[j] != ';' by {
        assert(extended[j] == digits[j]);
    }
    text::lemma_first_index_is(extended, ';', n);
    assert(extended.take(n) =~= digits);
    let nothing: Seq<char> = seq![];
    text::law_trim_undoes_padding(nothing, digits, nothing);
    assert(nothing + digits + nothing =~= digits);
    assert forall|j: int| 0 <= j < padded.len() implies padded[j] != ';' by {
        if 0 < j <= n {
            assert(padded[j] == digits[j - 1]);
        }
    }
    text::lemma_first_index_none(padded, ';');
    text::law_whitespace(' ');
    text::law_trim_undoes_padding(seq![' '], digits, seq![' ']);
}

} // verus!
