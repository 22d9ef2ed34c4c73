//! Scanning of texts held as slices of characters.

use vstd::prelude::*;
use vstd::string::*;

use crate::text;
use crate::text::Span;

verus! {

/// The characters of a string.
pub fn chars_of(s: &str) -> (chars: Vec<char>)
    ensures
        chars@ == s@,
{
    let mut chars: Vec<char> = Vec::new();
    for c in it: s.chars()
        invariant
            it.seq() == s@,
            chars@ == s@.take(it.index() as int),
    {
        chars.push(c);
    }
    assert(s@.take(s@.len() as int) =~= s@);
    chars
}

/// The span of a whole text.
pub fn whole(s: &[char]) -> (span: Span)
    ensures
        span.within(s@.len()),
        span.of(s@) == s@,
        span.start == 0,
        span.end == s@.len(),
{
    assert(s@.subrange(0, s@.len() as int) =~= s@);
    Span { start: 0, end: s.len() }
}

/// Whether `pattern` occurs in `s` at position `at`.
pub fn occurs_at(s: &[char], at: usize, pattern: &[char]) -> (b: bool)
    requires
        at <= s@.len(),
    ensures
        b == text::matches_at(s@, at as int, pattern@),
{
    if pattern.len() > s.len() - at {
        return false;
    }
    let mut i: usize = 0;
    while i < pattern.len()
        invariant
            i <= pattern@.len(),
            at + pattern@.len() <= s@.len() <= usize::MAX,
            forall|j: int| 0 <= j < i ==> s@[at + j] == pattern@[j],
        decreases pattern@.len() - i,
    {
        if s[at + i] != pattern[i] {
            assert(s@.subrange(at as int, at + pattern@.len())[i as int] != pattern@[i as int]);
            return false;
        }
        i += 1;
    }
    assert(s@.subrange(at as int, at + pattern@.len()) =~= pattern@);
    true
}

/// The first position at or after `from` where `pattern` occurs in `s`.
pub fn find_pattern(s: &[char], pattern: &[char], from: usize) -> (position: Option<usize>)
    requires
        from <= s@.len(),
    ensures
        match position {
            Some(i) => {
                &&& text::find_from(s@, pattern@, from as int) == Some(i as int)
                &&& from <= i
                &&& i + pattern@.len() <= s@.len() <= usize::MAX
            },
            None => text::find_from(s@, pattern@, from as int) is None,
        },
{
    let mut i: usize = from;
    while pattern.len() <= s.len() - i
        invariant
            from <= i <= s@.len(),
            text::find_from(s@, pattern@, from as int) == text::find_from(s@, pattern@, i as int),
        decreases s@.len() - i,
    {
        if occurs_at(s, i, pattern) {
            return Some(i);
        }
        if i == s.len() {
            assert(pattern@.len() == 0);
            assert(s@.subrange(i as int, i as int) =~= pattern@);
            return None;
        }
        i += 1;
    }
    None
}

/// The first position in the span that holds the given character.
pub fn first_position(s: &[char], span: Span, c: char) -> (position: Option<usize>)
    requires
        span.within(s@.len()),
    ensures
        match position {
            Some(i) => {
                &&& span.start <= i < span.end
                &&& text::first_index(span.of(s@), c) == Some(i - span.start)
            },
            None => text::first_index(span.of(s@), c) is None,
        },
{
    let mut i: usize = span.start;
    while i < span.end
        invariant
            span.start <= i <= span.end <= s@.len(),
            forall|j: int| span.start <= j < i ==> s@[j] != c,
        decreases span.end - i,
    {
        if s[i] == c {
            proof {
                text::lemma_first_index_is(span.of(s@), c, i - span.start);
            }
            return Some(i);
        }
        i += 1;
    }
    proof {
        text::lemma_first_index_none(span.of(s@), c);
    }
    None
}

/// The last position in the span that holds the given character.
pub fn last_position(s: &[char], span: Span, c: char) -> (position: Option<usize>)
    requires
        span.within(s@.len()),
    ensures
        match position {
            Some(i) => {
                &&& span.start <= i < span.end
                &&& text::last_index(span.of(s@), c) == Some(i - span.start)
            },
            None => text::last_index(span.of(s@), c) is None,
        },
{
    let mut i: usize = span.end;
    while i > span.start
        invariant
            span.start <= i <= span.end <= s@.len(),
            forall|j: int| i <= j < span.end ==> s@[j] != c,
        decreases i,
    {
        i -= 1;
        if s[i] == c {
            proof {
                text::lemma_last_index_is(span.of(s@), c, i - span.start);
            }
            return Some(i);
        }
    }
    proof {
        text::lemma_last_index(span.of(s@), c);
    }
    None
}

/// Whether a character has the Unicode `White_Space` property.
pub fn has_white_space(c: char) -> (b: bool)
    ensures
        b == text::is_whitespace(c),
{
    let n: u32 = c as u32;
    (0x09 <= n && n <= 0x0D) || n == 0x20 || n == 0x85 || n == 0xA0 || n == 0x1680 || (0x2000 <= n
        && n <= 0x200A) || n == 0x2028 || n == 0x2029 || n == 0x202F || n == 0x205F || n == 0x3000
}

/// The span without its leading and trailing whitespace.
pub fn trim_span(s: &[char], span: Span) -> (trimmed: Span)
    requires
        span.within(s@.len()),
    ensures
        trimmed.within(s@.len()),
        span.start <= trimmed.start,
        trimmed.end <= span.end,
        trimmed.of(s@) == text::trim(span.of(s@)),
{
    let mut start: usize = span.start;
    while start < span.end && has_white_space(s[start])
        invariant
            span.start <= start <= span.end <= s@.len(),
            text::trim_start(s@.subrange(start as int, span.end as int)) == text::trim_start(span.of(s@)),
        decreases span.end - start,
    {
        let ghost rest = s@.subrange(start as int, span.end as int);
        assert(rest.skip(1) =~= s@.subrange(start + 1, span.end as int));
        start += 1;
    }
    let ghost left = s@.subrange(start as int, span.end as int);
    assert(text::trim_start(left) == left);
    let mut end: usize = span.end;
    while end > start && has_white_space(s[end - 1])
        invariant
            span.start <= start <= end <= span.end <= s@.len(),
            text::trim_end(s@.subrange(start as int, end as int)) == text::trim_end(left),
        decreases end,
    {
        let ghost rest = s@.subrange(start as int, end as int);
        assert(rest.drop_last() =~= s@.subrange(start as int, end - 1));
        end -= 1;
    }
    Span { start, end }
}

/// The texts that spans cover.
pub open spec fn covered(spans: Seq<Span>, s: Seq<char>) -> Seq<Seq<char>> {
    Seq::new(spans.len(), |i: int| spans[i].of(s))
}

/// The spans of the lines of a text.
pub fn line_spans(s: &[char]) -> (spans: Vec<Span>)
    ensures
        covered(spans@, s@) == text::lines(s@),
        forall|i: int| 0 <= i < spans@.len() ==> (#[trigger] spans@[i]).within(s@.len()),
{
    let mut spans: Vec<Span> = Vec::new();
    let mut start: usize = 0;
    assert(s@.skip(0) =~= s@);
    assert(covered(spans@, s@) + text::lines(s@) =~= text::lines(s@));
    while start < s.len()
        invariant
            start <= s@.len(),
            covered(spans@, s@) + text::lines(s@.skip(start as int)) == text::lines(s@),
            forall|i: int| 0 <= i < spans@.len() ==> (#[trigger] spans@[i]).within(s@.len()),
        decreases s@.len() - start,
    {
        let ghost before = spans@;
        let ghost rest = s@.skip(start as int);
        let tail = Span { start, end: s.len() };
        assert(tail.of(s@) =~= rest);
        match first_position(s, tail, '\n') {
            Some(i) => {
                let end: usize = if i > start && s[i - 1] == '\r' {
                    i - 1
                } else {
                    i
                };
                let span = Span { start, end };
                spans.push(span);
                proof {
                    let k = i - start;
                    assert(text::first_index(rest, '\n') == Some(k));
                    assert(rest.take(k) =~= s@.subrange(start as int, i as int));
                    assert(span.of(s@) =~= text::strip_carriage_return(rest.take(k)));
                    assert(rest.skip(k + 1) =~= s@.skip(i + 1));
                    assert(covered(spans@, s@) =~= covered(before, s@).push(span.of(s@)));
                    assert(covered(spans@, s@) + text::lines(s@.skip(i + 1)) =~= covered(before, s@)
                        + text::lines(rest));
                }
                start = i + 1;
            },
            None => {
                spans.push(tail);
                proof {
                    assert(covered(spans@, s@) =~= covered(before, s@).push(rest));
                    assert(text::lines(rest) == seq![rest]);
                    assert(covered(spans@, s@) =~= text::lines(s@));
                }
                return spans;
            },
        }
    }
    proof {
        assert(s@.skip(start as int) =~= Seq::<char>::empty());
        assert(covered(spans@, s@) =~= text::lines(s@));
    }
    spans
}

/// Whether a character is ASCII whitespace.
pub fn has_ascii_white_space(c: char) -> (b: bool)
    ensures
        b == text::is_ascii_whitespace(c),
{
    let n: u32 = c as u32;
    n == 0x20 || n == 0x09 || n == 0x0A || n == 0x0C || n == 0x0D
}

/// The span of the word at the given index, where words are separated by ASCII whitespace.
pub fn word_span(s: &[char], span: Span, index: usize) -> (found: Option<Span>)
    requires
        span.within(s@.len()),
    ensures
        match found {
            Some(w) => w.within(s@.len()) && text::word(span.of(s@), index as nat) == Some(w.of(s@)),
            None => text::word(span.of(s@), index as nat) is None,
        },
    decreases index,
{
    let mut start: usize = span.start;
    while start < span.end && has_ascii_white_space(s[start])
        invariant
            span.start <= start <= span.end <= s@.len(),
            text::skip_ascii_whitespace(s@.subrange(start as int, span.end as int))
                == text::skip_ascii_whitespace(span.of(s@)),
        decreases span.end - start,
    {
        let ghost rest = s@.subrange(start as int, span.end as int);
        assert(rest.skip(1) =~= s@.subrange(start + 1, span.end as int));
        start += 1;
    }
    let ghost t = s@.subrange(start as int, span.end as int);
    assert(text::skip_ascii_whitespace(span.of(s@)) == t);
    if start == span.end {
        return None;
    }
    let mut end: usize = start;
    while end < span.end && !has_ascii_white_space(s[end])
        invariant
            start <= end <= span.end <= s@.len(),
            t == s@.subrange(start as int, span.end as int),
            text::word_length(t) == (end - start) + text::word_length(
                s@.subrange(end as int, span.end as int),
            ),
        decreases span.end - end,
    {
        let ghost rest = s@.subrange(end as int, span.end as int);
        assert(rest.skip(1) =~= s@.subrange(end + 1, span.end as int));
        end += 1;
    }
    proof {
        assert(text::word_length(s@.subrange(end as int, span.end as int)) == 0);
        assert(t.take(text::word_length(t) as int) =~= s@.subrange(start as int, end as int));
        assert(t.skip(text::word_length(t) as int) =~= s@.subrange(end as int, span.end as int));
    }
    if index == 0 {
        Some(Span { start, end })
    } else {
        word_span(s, Span { start: end, end: span.end }, index - 1)
    }
}

/// The code point of a character, with the ASCII capital letters mapped to their small letters.
pub fn lower_code(c: char) -> (n: u32)
    ensures
        n == text::ascii_lower(c),
{
    let n: u32 = c as u32;
    if 0x41 <= n && n <= 0x5A {
        n + 0x20
    } else {
        n
    }
}

/// Whether the span equals a text up to the case of ASCII letters.
pub fn span_eq_ignore_case(s: &[char], span: Span, other: &str) -> (b: bool)
    requires
        span.within(s@.len()),
    ensures
        b == text::eq_ignore_case(span.of(s@), other@),
{
    let o = chars_of(other);
    if span.end - span.start != o.len() {
        return false;
    }
    let mut i: usize = 0;
    while i < o.len()
        invariant
            i <= o@.len(),
            o@ == other@,
            span.within(s@.len()),
            span.end - span.start == o@.len(),
            forall|j: int| 0 <= j < i ==> text::ascii_lower(#[trigger] span.of(s@)[j]) == text::ascii_lower(o@[j]),
        decreases o@.len() - i,
    {
        assert(span.of(s@)[i as int] == s@[span.start + i]);
        if lower_code(s[span.start + i]) != lower_code(o[i]) {
            return false;
        }
        i += 1;
    }
    true
}

/// Whether the span begins with a text.
pub fn span_starts_with(s: &[char], span: Span, prefix: &str) -> (b: bool)
    requires
        span.within(s@.len()),
    ensures
        b == text::matches_at(span.of(s@), 0, prefix@),
{
    let p = chars_of(prefix);
    if p.len() > span.end - span.start {
        return false;
    }
    let b = occurs_at(s, span.start, p.as_slice());
    assert(span.of(s@).subrange(0, p@.len() as int) =~= s@.subrange(
        span.start as int,
        span.start + p@.len(),
    ));
    b
}

/// Whether the span is the given text.
pub fn span_is(s: &[char], span: Span, other: &str) -> (b: bool)
    requires
        span.within(s@.len()),
    ensures
        b == (span.of(s@) == other@),
{
    let p = chars_of(other);
    if p.len() != span.end - span.start {
        return false;
    }
    let b = occurs_at(s, span.start, p.as_slice());
    assert(span.of(s@) =~= s@.subrange(span.start as int, span.start + p@.len()));
    b
}

/// The value of a digit in the given radix.
pub fn digit(c: char, radix: u32) -> (value: Option<u32>)
    requires
        radix <= 36,
    ensures
        match value {
            Some(v) => text::digit_value(c, radix as nat) == Some(v as nat) && v < radix,
            None => text::digit_value(c, radix as nat) is None,
        },
{
    let n: u32 = c as u32;
    let value: u32 = if 0x30 <= n && n <= 0x39 {
        n - 0x30
    } else if 0x61 <= n && n <= 0x7A {
        n - 0x61 + 10
    } else if 0x41 <= n && n <= 0x5A {
        n - 0x41 + 10
    } else {
        radix
    };
    if value < radix {
        Some(value)
    } else {
        None
    }
}

/// Further digits never make a number smaller.
proof fn lemma_digits_value_prefix(s: Seq<char>, radix: nat, n: int)
    requires
        radix > 0,
        0 <= n <= s.len(),
    ensures
        text::digits_value(s.take(n), radix) <= text::digits_value(s, radix),
    decreases s.len() - n,
{
    if n == s.len() {
        assert(s.take(n) =~= s);
    } else {
        lemma_digits_value_prefix(s, radix, n + 1);
        let next = s.take(n + 1);
        assert(next.drop_last() =~= s.take(n));
        let v = text::digits_value(s.take(n), radix);
        assert(v * radix >= v) by (nonlinear_arith)
            requires
                radix > 0,
                v >= 0,
        ;
    }
}

/// The unsigned number that the span writes in the given radix, when it is at most `max`.
pub fn span_number(s: &[char], span: Span, radix: u32, max: u64) -> (number: Option<u64>)
    requires
        span.within(s@.len()),
        0 < radix <= 36,
    ensures
        match number {
            Some(n) => text::parse_unsigned(span.of(s@), radix as nat, max as nat) == Some(
                n as nat,
            ) && n <= max,
            None => text::parse_unsigned(span.of(s@), radix as nat, max as nat) is None,
        },
{
    let signed: bool = span.start < span.end && s[span.start] == '+';
    let start: usize = if signed {
        span.start + 1
    } else {
        span.start
    };
    let ghost digits = text::unsigned_digits(span.of(s@));
    assert(digits =~= s@.subrange(start as int, span.end as int));
    if start == span.end {
        return None;
    }
    let mut total: u64 = 0;
    let mut i: usize = start;
    while i < span.end
        invariant
            start <= i <= span.end <= s@.len(),
            0 < radix <= 36,
            total <= max,
            digits == text::unsigned_digits(span.of(s@)),
            digits == s@.subrange(start as int, span.end as int),
            text::all_digits(digits.take(i - start), radix as nat),
            total == text::digits_value(digits.take(i - start), radix as nat),
        decreases span.end - i,
    {
        let ghost k = i - start;
        let ghost next = digits.take(k + 1);
        assert(next.drop_last() =~= digits.take(k));
        assert(next.last() == s@[i as int] && digits[k] == s@[i as int]);
        match digit(s[i], radix) {
            Some(d) => {
                assert(total * radix <= u64::MAX * 36) by (nonlinear_arith)
                    requires
                        0 <= total <= u64::MAX,
                        0 < radix <= 36,
                ;
                let wide: u128 = (total as u128) * (radix as u128) + (d as u128);
                assert(text::digits_value(next, radix as nat) == wide);
                proof {
                    lemma_digits_value_prefix(digits, radix as nat, k + 1);
                }
                if wide > max as u128 {
                    return None;
                }
                total = wide as u64;
                assert(text::all_digits(next, radix as nat)) by {
                    assert forall|j: int| 0 <= j < next.len() implies text::digit_value(
                        #[trigger] next[j],
                        radix as nat,
                    ) is Some by {
                        if j < k {
                            assert(digits.take(k)[j] == next[j]);
                        }
                    }
                }
            },
            None => {
                return None;
            },
        }
        i += 1;
    }
    assert(digits.take(span.end - start) =~= digits);
    Some(total)
}

/// A text in which the pattern does not occur is left as it is.
pub proof fn lemma_replace_absent(s: Seq<char>, pattern: Seq<char>, with: Seq<char>)
    requires
        pattern.len() > 0,
        text::find(s, pattern) is None,
    ensures
        text::replace(s, pattern, with) == s,
    decreases s.len(),
{
    text::lemma_find_from(s, pattern, 0);
    if s.len() >= pattern.len() {
        assert(!text::matches_at(s, 0, pattern));
        let t = s.skip(1);
        assert forall|j: int| 0 <= j implies !#[trigger] text::matches_at(t, j, pattern) by {
            if text::matches_at(t, j, pattern) {
                assert(s.subrange(j + 1, j + 1 + pattern.len()) =~= t.subrange(j, j + pattern.len()));
                assert(text::matches_at(s, j + 1, pattern));
            }
        }
        text::lemma_find_none(t, pattern, 0);
        lemma_replace_absent(t, pattern, with);
        assert(seq![s[0]] + t =~= s);
    }
}

/// Replacement leaves what comes before the first occurrence and continues after it.
pub proof fn lemma_replace_first(s: Seq<char>, pattern: Seq<char>, with: Seq<char>, i: int)
    requires
        pattern.len() > 0,
        text::find(s, pattern) == Some(i),
    ensures
        0 <= i,
        i + pattern.len() <= s.len(),
        text::replace(s, pattern, with) == s.take(i) + with + text::replace(
            s.skip(i + pattern.len()),
            pattern,
            with,
        ),
    decreases s.len(),
{
    text::lemma_find_from(s, pattern, 0);
    if i == 0 {
        assert(s.take(0) + with =~= with);
    } else {
        assert(!text::matches_at(s, 0, pattern));
        let t = s.skip(1);
        assert forall|j: int| 0 <= j < i - 1 implies !#[trigger] text::matches_at(
            t,
            j,
            pattern,
        ) by {
            if text::matches_at(t, j, pattern) {
                assert(s.subrange(j + 1, j + 1 + pattern.len()) =~= t.subrange(j, j + pattern.len()));
                assert(text::matches_at(s, j + 1, pattern));
            }
        }
        assert(t.subrange(i - 1, i - 1 + pattern.len()) =~= s.subrange(i, i + pattern.len()));
        text::lemma_find_is(t, pattern, 0, i - 1);
        lemma_replace_first(t, pattern, with, i - 1);
        assert(t.skip(i - 1 + pattern.len()) =~= s.skip(i + pattern.len()));
        let rest = text::replace(s.skip(i + pattern.len()), pattern, with);
        assert(seq![s[0]] + (t.take(i - 1) + with + rest) =~= s.take(i) + with + rest);
    }
}

/// A search in a suffix finds what a search from its start finds.
pub proof fn lemma_find_suffix<T>(s: Seq<T>, pattern: Seq<T>, from: int)
    requires
        0 <= from <= s.len(),
    ensures
        text::find(s.skip(from), pattern) == (match text::find_from(s, pattern, from) {
            Some(i) => Some(i - from),
            None => None,
        }),
{
    let t = s.skip(from);
    text::lemma_find_from(s, pattern, from);
    assert forall|j: int| 0 <= j implies text::matches_at(t, j, pattern) == #[trigger] text::matches_at(
        s,
        from + j,
        pattern,
    ) by {
        if 0 <= j && j + pattern.len() <= t.len() {
            assert(t.subrange(j, j + pattern.len()) =~= s.subrange(
                from + j,
                from + j + pattern.len(),
            ));
        }
    }
    match text::find_from(s, pattern, from) {
        Some(i) => {
            assert(text::matches_at(s, from + (i - from), pattern));
            assert forall|j: int| 0 <= j < i - from implies !#[trigger] text::matches_at(
                t,
                j,
                pattern,
            ) by {
                assert(!text::matches_at(s, from + j, pattern));
            }
            text::lemma_find_is(t, pattern, 0, i - from);
        },
        None => {
            assert forall|j: int| 0 <= j implies !#[trigger] text::matches_at(t, j, pattern) by {
                assert(!text::matches_at(s, from + j, pattern));
            }
            text::lemma_find_none(t, pattern, 0);
        },
    }
}

/// The text with every occurrence of `pattern` replaced.
pub fn replace_all(s: &str, pattern: &str, with: &str) -> (replaced: String)
    requires
        pattern@.len() > 0,
    ensures
        replaced@ == text::replace(s@, pattern@, with@),
{
    let chars = chars_of(s);
    let p = chars_of(pattern);
    let length: usize = chars.len();
    let mut replaced = String::new();
    let mut start: usize = 0;
    assert(s@.skip(0) =~= s@);
    assert(replaced@ + text::replace(s@, pattern@, with@) =~= text::replace(s@, pattern@, with@));
    loop
        invariant
            chars@ == s@,
            p@ == pattern@,
            pattern@.len() > 0,
            length == chars@.len(),
            start <= length,
            replaced@ + text::replace(s@.skip(start as int), pattern@, with@) == text::replace(
                s@,
                pattern@,
                with@,
            ),
        decreases s@.len() - start,
    {
        let ghost rest = s@.skip(start as int);
        let ghost done = replaced@;
        proof {
            lemma_find_suffix(s@, pattern@, start as int);
        }
        match find_pattern(chars.as_slice(), p.as_slice(), start) {
            Some(i) => {
                replaced.append(s.substring_char(start, i));
                replaced.append(with);
                proof {
                    lemma_replace_first(rest, pattern@, with@, i - start);
                    assert(rest.take(i - start) =~= s@.subrange(start as int, i as int));
                    assert(rest.skip(i - start + pattern@.len()) =~= s@.skip(i + pattern@.len()));
                    let tail = text::replace(s@.skip(i + pattern@.len()), pattern@, with@);
                    assert(done + (rest.take(i - start) + with@ + tail) =~= replaced@ + tail);
                }
                start = i + p.len();
            },
            None => {
                replaced.append(s.substring_char(start, length));
                proof {
                    lemma_replace_absent(rest, pattern@, with@);
                    assert(s@.subrange(start as int, s@.len() as int) =~= rest);
                }
                return replaced;
            },
        }
    }
}

/// Appends the decimal digit of a number below ten.
fn append_digit(out: &mut String, n: u64)
    requires
        n < 10,
    ensures
        final(out)@ == old(out)@ + seq![text::decimal_digit(n as nat)],
{
    proof {
        reveal_strlit("0");
        reveal_strlit("1");
        reveal_strlit("2");
        reveal_strlit("3");
        reveal_strlit("4");
        reveal_strlit("5");
        reveal_strlit("6");
        reveal_strlit("7");
        reveal_strlit("8");
        reveal_strlit("9");
    }
    let digit: &str = match n {
        0 => "0",
        1 => "1",
        2 => "2",
        3 => "3",
        4 => "4",
        5 => "5",
        6 => "6",
        7 => "7",
        8 => "8",
        _ => "9",
    };
    assert(digit@ =~= seq![text::decimal_digit(n as nat)]);
    out.append(digit);
}

/// Appends a number in decimal notation.
pub fn append_decimal(out: &mut String, n: u64)
    ensures
        final(out)@ == old(out)@ + text::decimal(n as nat),
    decreases n,
{
    if n < 10 {
        append_digit(out, n);
    } else {
        append_decimal(out, n / 10);
        append_digit(out, n % 10);
        assert(out@ =~= old(out)@ + text::decimal(n as nat));
    }
}

} // verus!
