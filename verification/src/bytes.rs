//! Scanning of raw bytes and their interpretation as text.

use vstd::prelude::*;
use vstd::utf8::*;

use crate::text;

verus! {

/// Whether `pattern` occurs in `raw` at position `at`.
pub fn bytes_occur_at(raw: &[u8], at: usize, pattern: &[u8]) -> (b: bool)
    requires
        at <= raw@.len(),
    ensures
        b == text::matches_at(raw@, at as int, pattern@),
{
    if pattern.len() > raw.len() - at {
        return false;
    }
    let mut i: usize = 0;
    while i < pattern.len()
        invariant
            i <= pattern@.len(),
            at + pattern@.len() <= raw@.len() <= usize::MAX,
            forall|j: int| 0 <= j < i ==> raw@[at + j] == pattern@[j],
        decreases pattern@.len() - i,
    {
        if raw[at + i] != pattern[i] {
            assert(raw@.subrange(at as int, at + pattern@.len())[i as int] != pattern@[i as int]);
            return false;
        }
        i += 1;
    }
    assert(raw@.subrange(at as int, at + pattern@.len()) =~= pattern@);
    true
}

/// The first position where `pattern` occurs in `raw`.
pub fn find_bytes(raw: &[u8], pattern: &[u8]) -> (position: Option<usize>)
    requires
        pattern@.len() > 0,
    ensures
        match position {
            Some(i) => text::find(raw@, pattern@) == Some(i as int) && i + pattern@.len()
                <= raw@.len(),
            None => text::find(raw@, pattern@) is None,
        },
{
    let mut i: usize = 0;
    while pattern.len() <= raw.len() - i
        invariant
            pattern@.len() > 0,
            i <= raw@.len(),
            text::find(raw@, pattern@) == text::find_from(raw@, pattern@, i as int),
        decreases raw@.len() - i,
    {
        if bytes_occur_at(raw, i, pattern) {
            return Some(i);
        }
        i += 1;
    }
    None
}

/// A text that encodes to the given bytes, when they are valid UTF-8.
///
/// Calls `std::str::from_utf8`, which accepts exactly the valid UTF-8 sequences and borrows the
/// text that they encode.
#[verifier::external_body]
pub(crate) fn utf8_text(raw: &[u8]) -> (decoded: Option<&str>)
    ensures
        match decoded {
            Some(t) => valid_utf8(raw@) && encode_utf8(t@) == raw@,
            None => !valid_utf8(raw@),
        },
{
    std::str::from_utf8(raw).ok()
}

/// The text that `String::from_utf8_lossy` makes of a sequence of bytes.
pub uninterp spec fn lossy_text(raw: Seq<u8>) -> Seq<char>;

/// The bytes as text, with what is not UTF-8 marked by replacement characters.
///
/// Calls `String::from_utf8_lossy`. The result depends on the bytes alone, and is the text they
/// encode when they are valid UTF-8.
#[verifier::external_body]
pub(crate) fn lossy_string(raw: &[u8]) -> (decoded: String)
    ensures
        decoded@ == lossy_text(raw@),
        valid_utf8(raw@) ==> encode_utf8(decoded@) == raw@,
{
    String::from_utf8_lossy(raw).into_owned()
}

/// Whether a text is what a content stands for: the text it encodes when it is valid UTF-8, and
/// otherwise the text with what is not UTF-8 marked by replacement characters.
pub open spec fn is_text_of(decoded: Seq<char>, content: Seq<u8>) -> bool {
    &&& decoded == lossy_text(content)
    &&& valid_utf8(content) ==> encode_utf8(decoded) == content
}

/// The text of a sequence of bytes that is valid UTF-8.
pub fn decode_text(raw: &[u8]) -> (decoded: Option<&str>)
    ensures
        match decoded {
            Some(t) => valid_utf8(raw@) && t@ == decode_utf8(raw@),
            None => !valid_utf8(raw@),
        },
{
    let decoded = utf8_text(raw);
    proof {
        if let Some(t) = decoded {
            encode_utf8_decode_utf8(t@);
        }
    }
    decoded
}

} // verus!
