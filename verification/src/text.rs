//! Text handling on sequences of characters.
//!
//! Protocol messages are short, so a string is taken apart as a vector of its characters and
//! its parts are named by the positions they span. Every operation is stated over the sequence
//! of characters alone.

use vstd::prelude::*;

verus! {

/// Whether `pattern` occurs in `s` at position `at`.
pub open spec fn matches_at<T>(s: Seq<T>, at: int, pattern: Seq<T>) -> bool {
    &&& 0 <= at
    &&& at + pattern.len() <= s.len()
    &&& s.subrange(at, at + pattern.len()) == pattern
}

/// The first position at or after `from` where `pattern` occurs in `s`.
pub open spec fn find_from<T>(s: Seq<T>, pattern: Seq<T>, from: int) -> Option<int>
    decreases s.len() + 1 - from,
{
    if from < 0 || from + pattern.len() > s.len() {
        None
    } else if matches_at(s, from, pattern) {
        Some(from)
    } else {
        find_from(s, pattern, from + 1)
    }
}

/// The first position where `pattern` occurs in `s`.
pub open spec fn find<T>(s: Seq<T>, pattern: Seq<T>) -> Option<int> {
    find_from(s, pattern, 0)
}

/// A position found is a match, and no position before it is one; when nothing is found, no
/// position is a match.
pub proof fn lemma_find_from<T>(s: Seq<T>, pattern: Seq<T>, from: int)
    requires
        0 <= from,
    ensures
        find_from(s, pattern, from) matches Some(i) ==> {
            &&& from <= i
            &&& matches_at(s, i, pattern)
            &&& forall|j: int| from <= j < i ==> !#[trigger] matches_at(s, j, pattern)
        },
        find_from(s, pattern, from) is None ==> forall|j: int|
            from <= j ==> !#[trigger] matches_at(s, j, pattern),
    decreases s.len() + 1 - from,
{
    if from + pattern.len() <= s.len() && !matches_at(s, from, pattern) {
        lemma_find_from(s, pattern, from + 1);
    }
}

/// A match with no match before it is the position found.
pub proof fn lemma_find_is<T>(s: Seq<T>, pattern: Seq<T>, from: int, i: int)
    requires
        0 <= from <= i,
        matches_at(s, i, pattern),
        forall|j: int| from <= j < i ==> !#[trigger] matches_at(s, j, pattern),
    ensures
        find_from(s, pattern, from) == Some(i),
    decreases i - from,
{
    if from < i {
        lemma_find_is(s, pattern, from + 1, i);
    }
}

/// When no position matches, nothing is found.
pub proof fn lemma_find_none<T>(s: Seq<T>, pattern: Seq<T>, from: int)
    requires
        0 <= from,
        forall|j: int| from <= j ==> !#[trigger] matches_at(s, j, pattern),
    ensures
        find_from(s, pattern, from) is None,
    decreases s.len() + 1 - from,
{
    if from + pattern.len() <= s.len() {
        lemma_find_none(s, pattern, from + 1);
    }
}

/// The first position where `item` occurs in `s`.
pub open spec fn first_index<T>(s: Seq<T>, item: T) -> Option<int>
    decreases s.len(),
{
    if s.len() == 0 {
        None
    } else if s[0] == item {
        Some(0)
    } else {
        match first_index(s.skip(1), item) {
            Some(i) => Some(i + 1),
            None => None,
        }
    }
}

/// The last position where `item` occurs in `s`.
pub open spec fn last_index<T>(s: Seq<T>, item: T) -> Option<int>
    decreases s.len(),
{
    if s.len() == 0 {
        None
    } else if s.last() == item {
        Some(s.len() - 1)
    } else {
        last_index(s.drop_last(), item)
    }
}

/// The first index of an item is characterised by what lies at and before it.
pub proof fn lemma_first_index<T>(s: Seq<T>, item: T)
    ensures
        first_index(s, item) matches Some(i) ==> {
            &&& 0 <= i < s.len()
            &&& s[i] == item
            &&& forall|j: int| 0 <= j < i ==> s[j] != item
        },
        first_index(s, item) is None ==> !s.contains(item),
    decreases s.len(),
{
    if s.len() > 0 && s[0] != item {
        let t = s.skip(1);
        lemma_first_index(t, item);
        assert forall|j: int| 0 < j < s.len() implies s[j] == t[j - 1] by {}
        match first_index(t, item) {
            Some(k) => {
                assert forall|j: int| 0 <= j < k + 1 implies s[j] != item by {
                    if j > 0 {
                        assert(s[j] == t[j - 1]);
                    }
                }
            },
            None => {
                assert forall|j: int| 0 <= j < s.len() implies s[j] != item by {
                    if j > 0 {
                        assert(t.contains(t[j - 1]));
                    }
                }
            },
        }
    }
}

/// An item with no equal item before it stands at the first index.
pub proof fn lemma_first_index_is<T>(s: Seq<T>, item: T, i: int)
    requires
        0 <= i < s.len(),
        s[i] == item,
        forall|j: int| 0 <= j < i ==> s[j] != item,
    ensures
        first_index(s, item) == Some(i),
{
    lemma_first_index(s, item);
    if first_index(s, item) is None {
        assert(s.contains(s[i]));
    }
}

/// An item that does not occur has no first index.
pub proof fn lemma_first_index_none<T>(s: Seq<T>, item: T)
    requires
        forall|j: int| 0 <= j < s.len() ==> s[j] != item,
    ensures
        first_index(s, item) is None,
{
    lemma_first_index(s, item);
}

/// The last index of an item is characterised by what lies at and after it.
pub proof fn lemma_last_index<T>(s: Seq<T>, item: T)
    ensures
        last_index(s, item) matches Some(i) ==> {
            &&& 0 <= i < s.len()
            &&& s[i] == item
            &&& forall|j: int| i < j < s.len() ==> s[j] != item
        },
        last_index(s, item) is None ==> !s.contains(item),
    decreases s.len(),
{
    if s.len() > 0 && s.last() != item {
        let t = s.drop_last();
        lemma_last_index(t, item);
        match last_index(t, item) {
            Some(k) => {
                assert forall|j: int| k < j < s.len() implies s[j] != item by {
                    if j < s.len() - 1 {
                        assert(s[j] == t[j]);
                    }
                }
            },
            None => {
                assert forall|j: int| 0 <= j < s.len() implies s[j] != item by {
                    if j < s.len() - 1 {
                        assert(t.contains(t[j]));
                    }
                }
            },
        }
    }
}

/// An item with no equal item after it stands at the last index.
pub proof fn lemma_last_index_is<T>(s: Seq<T>, item: T, i: int)
    requires
        0 <= i < s.len(),
        s[i] == item,
        forall|j: int| i < j < s.len() ==> s[j] != item,
    ensures
        last_index(s, item) == Some(i),
{
    lemma_last_index(s, item);
    if last_index(s, item) is None {
        assert(s.contains(s[i]));
    }
}

/// Whether a character has the Unicode `White_Space` property.
pub open spec fn is_whitespace(c: char) -> bool {
    let n = c as u32;
    ||| 0x09 <= n <= 0x0D
    ||| n == 0x20
    ||| n == 0x85
    ||| n == 0xA0
    ||| n == 0x1680
    ||| 0x2000 <= n <= 0x200A
    ||| n == 0x2028
    ||| n == 0x2029
    ||| n == 0x202F
    ||| n == 0x205F
    ||| n == 0x3000
}

/// Whether a character is ASCII whitespace: a space, tab, line feed, form feed or carriage return.
pub open spec fn is_ascii_whitespace(c: char) -> bool {
    let n = c as u32;
    n == 0x20 || n == 0x09 || n == 0x0A || n == 0x0C || n == 0x0D
}

/// The code point of a character, with the ASCII capital letters mapped to their small letters.
pub open spec fn ascii_lower(c: char) -> u32 {
    if 0x41 <= c as u32 <= 0x5A {
        (c as u32 + 0x20) as u32
    } else {
        c as u32
    }
}

/// Whether two texts are equal up to the case of ASCII letters.
pub open spec fn eq_ignore_case(a: Seq<char>, b: Seq<char>) -> bool {
    &&& a.len() == b.len()
    &&& forall|i: int| 0 <= i < a.len() ==> ascii_lower(#[trigger] a[i]) == ascii_lower(b[i])
}

/// The text without its leading whitespace.
pub open spec fn trim_start(s: Seq<char>) -> Seq<char>
    decreases s.len(),
{
    if s.len() > 0 && is_whitespace(s[0]) {
        trim_start(s.skip(1))
    } else {
        s
    }
}

/// The text without its trailing whitespace.
pub open spec fn trim_end(s: Seq<char>) -> Seq<char>
    decreases s.len(),
{
    if s.len() > 0 && is_whitespace(s.last()) {
        trim_end(s.drop_last())
    } else {
        s
    }
}

/// The text without its leading and trailing whitespace.
pub open spec fn trim(s: Seq<char>) -> Seq<char> {
    trim_end(trim_start(s))
}

/// Two texts are equal up to the case of ASCII letters exactly when they are equally long and, at
/// each position, hold the same character or a capital letter and its small letter.
pub proof fn law_case_is_ignored(a: Seq<char>, b: Seq<char>)
    ensures
        eq_ignore_case(a, b) <==> a.len() == b.len() && forall|i: int|
            0 <= i < a.len() ==> {
                ||| #[trigger] a[i] == b[i]
                ||| 'A' <= a[i] <= 'Z' && b[i] as u32 == a[i] as u32 + ('a' as u32 - 'A' as u32)
                ||| 'A' <= b[i] <= 'Z' && a[i] as u32 == b[i] as u32 + ('a' as u32 - 'A' as u32)
            },
{
    if a.len() == b.len() {
        assert forall|i: int| 0 <= i < a.len() implies (ascii_lower(#[trigger] a[i]) == ascii_lower(
            b[i],
        ) <==> {
            ||| a[i] == b[i]
            ||| 'A' <= a[i] <= 'Z' && b[i] as u32 == a[i] as u32 + ('a' as u32 - 'A' as u32)
            ||| 'A' <= b[i] <= 'Z' && a[i] as u32 == b[i] as u32 + ('a' as u32 - 'A' as u32)
        }) by {
            lemma_lower(a[i], b[i]);
        }
    }
}

/// Two characters have the same small letter when they differ at most in case.
proof fn lemma_lower(a: char, b: char)
    ensures
        ascii_lower(a) == ascii_lower(b) <==> {
            ||| a == b
            ||| 'A' <= a <= 'Z' && b as u32 == a as u32 + ('a' as u32 - 'A' as u32)
            ||| 'A' <= b <= 'Z' && a as u32 == b as u32 + ('a' as u32 - 'A' as u32)
        },
{
}

/// A character is a letter up to case when it is its capital or its small letter.
pub proof fn lemma_letter(c: char, capital: char, small: char)
    requires
        'A' <= capital <= 'Z',
        small as u32 == capital as u32 + ('a' as u32 - 'A' as u32),
    ensures
        ascii_lower(c) == ascii_lower(capital) <==> c == capital || c == small,
        ascii_lower(c) == ascii_lower(small) <==> c == capital || c == small,
{
}

/// Trimming takes whitespace away from both ends of a text, and nothing else: what is left is a
/// part of the text with whitespace alone around it, and neither begins nor ends with whitespace.
pub proof fn law_trim(s: Seq<char>)
    ensures
        exists|i: int, j: int|
            {
                &&& 0 <= i <= j <= s.len()
                &&& #[trigger] s.subrange(i, j) == trim(s)
                &&& forall|k: int| 0 <= k < i || j <= k < s.len() ==> is_whitespace(#[trigger] s[k])
            },
        trim(s).len() > 0 ==> !is_whitespace(trim(s)[0]) && !is_whitespace(trim(s).last()),
{
    lemma_trim_start(s);
    let t = trim_start(s);
    let i = s.len() - t.len();
    lemma_trim_end(t);
    let j = i + trim(s).len();
    assert(s.subrange(i, j) =~= trim(s)) by {
        assert(trim(s) == t.take(trim(s).len() as int));
    }
    assert forall|k: int| 0 <= k < i || j <= k < s.len() implies is_whitespace(
        #[trigger] s[k],
    ) by {
        if j <= k {
            assert(s[k] == t[k - i]);
        }
    }
}

/// What leading whitespace is taken away from is a suffix.
proof fn lemma_trim_start(s: Seq<char>)
    ensures
        trim_start(s).len() <= s.len(),
        trim_start(s) == s.skip(s.len() - trim_start(s).len()),
        forall|k: int| 0 <= k < s.len() - trim_start(s).len() ==> is_whitespace(#[trigger] s[k]),
        trim_start(s).len() > 0 ==> !is_whitespace(trim_start(s)[0]),
    decreases s.len(),
{
    if s.len() > 0 && is_whitespace(s[0]) {
        let t = s.skip(1);
        lemma_trim_start(t);
        assert(s.skip(s.len() - trim_start(s).len()) =~= t.skip(t.len() - trim_start(t).len()));
        assert forall|k: int| 0 <= k < s.len() - trim_start(s).len() implies is_whitespace(
            #[trigger] s[k],
        ) by {
            if k > 0 {
                assert(s[k] == t[k - 1]);
            }
        }
    } else {
        assert(s.skip(0) =~= s);
    }
}

/// What trailing whitespace is taken away from is a prefix.
proof fn lemma_trim_end(s: Seq<char>)
    ensures
        trim_end(s).len() <= s.len(),
        trim_end(s) == s.take(trim_end(s).len() as int),
        forall|k: int| trim_end(s).len() <= k < s.len() ==> is_whitespace(#[trigger] s[k]),
        trim_end(s).len() > 0 ==> !is_whitespace(trim_end(s).last()),
    decreases s.len(),
{
    if s.len() > 0 && is_whitespace(s.last()) {
        let t = s.drop_last();
        lemma_trim_end(t);
        assert(s.take(trim_end(s).len() as int) =~= t.take(trim_end(t).len() as int));
        assert forall|k: int| trim_end(s).len() <= k < s.len() implies is_whitespace(
            #[trigger] s[k],
        ) by {
            if k < s.len() - 1 {
                assert(s[k] == t[k]);
            }
        }
    } else {
        assert(s.take(s.len() as int) =~= s);
    }
}

/// The characters that are trimmed: the ASCII whitespace and control characters from tab to
/// carriage return, the space, and the Unicode spaces and separators.
pub proof fn law_whitespace(c: char)
    ensures
        is_whitespace(c) <==> {
            ||| c == ' ' || '\t' <= c <= '\r'
            ||| c == '\u{85}' || c == '\u{a0}' || c == '\u{1680}'
            ||| '\u{2000}' <= c <= '\u{200a}'
            ||| c == '\u{2028}' || c == '\u{2029}' || c == '\u{202f}' || c == '\u{205f}'
            ||| c == '\u{3000}'
        },
        is_ascii_whitespace(c) <==> c == ' ' || c == '\t' || c == '\n' || c == '\u{c}' || c == '\r',
{
}

/// A text without whitespace at its ends is left as it is by trimming, also when whitespace is put
/// around it.
pub proof fn law_trim_undoes_padding(before: Seq<char>, s: Seq<char>, after: Seq<char>)
    requires
        forall|k: int| 0 <= k < before.len() ==> is_whitespace(#[trigger] before[k]),
        forall|k: int| 0 <= k < after.len() ==> is_whitespace(#[trigger] after[k]),
        s.len() > 0 ==> !is_whitespace(s[0]) && !is_whitespace(s.last()),
    ensures
        trim(before + s + after) == s,
    decreases before.len() + after.len(),
{
    let all = before + s + after;
    if s.len() == 0 {
        assert forall|k: int| 0 <= k < all.len() implies is_whitespace(#[trigger] all[k]) by {
            if k < before.len() {
                assert(all[k] == before[k]);
            } else {
                assert(all[k] == after[k - before.len()]);
            }
        }
        law_trim(all);
        assert(trim(all) =~= s) by {
            if trim(all).len() > 0 {
                let (i, j) = choose|i: int, j: int|
                    {
                        &&& 0 <= i <= j <= all.len()
                        &&& #[trigger] all.subrange(i, j) == trim(all)
                        &&& forall|k: int|
                            0 <= k < i || j <= k < all.len() ==> is_whitespace(#[trigger] all[k])
                    };
                assert(trim(all)[0] == all[i]);
            }
        }
    } else if before.len() > 0 {
        let rest = before.skip(1);
        assert forall|k: int| 0 <= k < rest.len() implies is_whitespace(#[trigger] rest[k]) by {
            assert(rest[k] == before[k + 1]);
        }
        law_trim_undoes_padding(rest, s, after);
        assert(all[0] == before[0]);
        assert(all.skip(1) =~= rest + s + after);
    } else {
        assert(all[0] == s[0]);
        assert(trim_start(all) == all);
        if after.len() > 0 {
            let rest = after.drop_last();
            assert forall|k: int| 0 <= k < rest.len() implies is_whitespace(#[trigger] rest[k]) by {
                assert(rest[k] == after[k]);
            }
            law_trim_undoes_padding(before, s, rest);
            assert(all.last() == after.last());
            assert(all.drop_last() =~= before + s + rest);
            assert((before + s + rest)[0] == s[0]);
            assert(trim_start(before + s + rest) == before + s + rest);
        } else {
            assert(all =~= s);
        }
    }
}

/// Whether a text has no whitespace around it.
pub open spec fn is_trimmed(s: Seq<char>) -> bool {
    s.len() > 0 ==> !is_whitespace(s[0]) && !is_whitespace(s.last())
}

/// A text without whitespace around it is left as it is by trimming.
pub proof fn lemma_trimmed(s: Seq<char>)
    requires
        is_trimmed(s),
    ensures
        trim(s) == s,
{
    let nothing: Seq<char> = seq![];
    law_trim_undoes_padding(nothing, s, nothing);
    assert(nothing + s + nothing =~= s);
}

/// A line without the carriage return that belonged to its line ending.
pub open spec fn strip_carriage_return(line: Seq<char>) -> Seq<char> {
    if line.len() > 0 && line.last() == '\r' {
        line.drop_last()
    } else {
        line
    }
}

/// The lines of a text, which end in a line feed or a carriage return and a line feed.
/// The ending of the last line is optional.
pub open spec fn lines(s: Seq<char>) -> Seq<Seq<char>>
    decreases s.len(),
    via lines_decreases
{
    if s.len() == 0 {
        seq![]
    } else {
        match first_index(s, '\n') {
            Some(i) => seq![strip_carriage_return(s.take(i))] + lines(s.skip(i + 1)),
            None => seq![s],
        }
    }
}

#[via_fn]
proof fn lines_decreases(s: Seq<char>) {
    lemma_first_index(s, '\n');
}

/// A line is read up to its ending, which is a line feed with or without a carriage return before
/// it, and the lines after it follow. The ending of the last line may be missing.
pub proof fn law_line_is_read(line: Seq<char>, rest: Seq<char>)
    requires
        !line.contains('\n'),
    ensures
        lines(line + "\r\n"@ + rest) == seq![line] + lines(rest),
        (line.len() == 0 || line.last() != '\r') ==> lines(line + "\n"@ + rest) == seq![line] + lines(
            rest,
        ),
        line.len() > 0 ==> lines(line) == seq![line],
        lines(Seq::<char>::empty()).len() == 0,
{
    reveal_strlit("\r\n");
    reveal_strlit("\n");
    let long = line + "\r\n"@ + rest;
    let n = line.len() as int;
    assert forall|j: int| 0 <= j < n + 1 implies long[j] != '\n' by {
        if j < n {
            assert(long[j] == line[j]);
        }
    }
    lemma_first_index_is(long, '\n', n + 1);
    assert(long.take(n + 1).drop_last() =~= line);
    assert(long.skip(n + 2) =~= rest);
    let short = line + "\n"@ + rest;
    assert forall|j: int| 0 <= j < n implies short[j] != '\n' by {
        assert(short[j] == line[j]);
    }
    lemma_first_index_is(short, '\n', n);
    assert(short.take(n) =~= line);
    assert(short.skip(n + 1) =~= rest);
    lemma_first_index(line, '\n');
    if let Some(i) = first_index(line, '\n') {
        assert(line.contains(line[i]));
    }
}

/// The text after its leading ASCII whitespace.
pub open spec fn skip_ascii_whitespace(s: Seq<char>) -> Seq<char>
    decreases s.len(),
{
    if s.len() > 0 && is_ascii_whitespace(s[0]) {
        skip_ascii_whitespace(s.skip(1))
    } else {
        s
    }
}

/// The number of characters before the first ASCII whitespace.
pub open spec fn word_length(s: Seq<char>) -> nat
    decreases s.len(),
{
    if s.len() > 0 && !is_ascii_whitespace(s[0]) {
        1 + word_length(s.skip(1))
    } else {
        0
    }
}

/// The word at the given index, where words are separated by ASCII whitespace.
pub open spec fn word(s: Seq<char>, index: nat) -> Option<Seq<char>>
    decreases index,
{
    let t = skip_ascii_whitespace(s);
    if t.len() == 0 {
        None
    } else if index == 0 {
        Some(t.take(word_length(t) as int))
    } else {
        word(t.skip(word_length(t) as int), (index - 1) as nat)
    }
}

/// Words are read one after the other: a word followed by a space is the first, and the words after
/// the space follow it.
pub proof fn law_word_is_read(first: Seq<char>, rest: Seq<char>, index: nat)
    requires
        first.len() > 0,
        forall|k: int| 0 <= k < first.len() ==> !is_ascii_whitespace(#[trigger] first[k]),
    ensures
        word(first + " "@ + rest, 0) == Some(first),
        word(first + " "@ + rest, index + 1) == word(rest, index),
        word(first, 0) == Some(first),
        word(first, index + 1) is None,
{
    reveal_strlit(" ");
    let all = first + " "@ + rest;
    assert(all[0] == first[0]);
    assert(skip_ascii_whitespace(all) == all);
    lemma_word_length(first, " "@ + rest);
    assert(all =~= first + (" "@ + rest));
    assert(all.take(first.len() as int) =~= first);
    let tail = all.skip(first.len() as int);
    assert(tail =~= " "@ + rest);
    assert(tail.skip(1) =~= rest);
    assert(skip_ascii_whitespace(tail) == skip_ascii_whitespace(rest));
    let nothing: Seq<char> = seq![];
    lemma_word_length(first, nothing);
    assert(first + nothing =~= first);
    assert(first.take(first.len() as int) =~= first);
    assert(first.skip(first.len() as int) =~= nothing);
    assert(skip_ascii_whitespace(first) == first);
    assert(skip_ascii_whitespace(nothing) == nothing);
    reveal_with_fuel(word, 2);
}

/// The characters before the first whitespace are counted.
proof fn lemma_word_length(first: Seq<char>, rest: Seq<char>)
    requires
        forall|k: int| 0 <= k < first.len() ==> !is_ascii_whitespace(#[trigger] first[k]),
        rest.len() > 0 ==> is_ascii_whitespace(rest[0]),
    ensures
        word_length(first + rest) == first.len(),
    decreases first.len(),
{
    let all = first + rest;
    if first.len() > 0 {
        let tail = first.skip(1);
        assert(all[0] == first[0]);
        assert forall|k: int| 0 <= k < tail.len() implies !is_ascii_whitespace(
            #[trigger] tail[k],
        ) by {
            assert(tail[k] == first[k + 1]);
        }
        lemma_word_length(tail, rest);
        assert(all.skip(1) =~= tail + rest);
    } else {
        assert(all =~= rest);
    }
}

/// The value of a digit in the given radix.
pub open spec fn digit_value(c: char, radix: nat) -> Option<nat> {
    let n = c as u32;
    let value: nat = if 0x30 <= n <= 0x39 {
        (n - 0x30) as nat
    } else if 0x61 <= n <= 0x7A {
        (n - 0x61 + 10) as nat
    } else if 0x41 <= n <= 0x5A {
        (n - 0x41 + 10) as nat
    } else {
        radix
    };
    if value < radix {
        Some(value)
    } else {
        None
    }
}

/// Whether every character is a digit in the given radix.
pub open spec fn all_digits(s: Seq<char>, radix: nat) -> bool {
    forall|i: int| 0 <= i < s.len() ==> digit_value(#[trigger] s[i], radix) is Some
}

/// The number written by a sequence of digits, most significant first.
pub open spec fn digits_value(s: Seq<char>, radix: nat) -> nat
    decreases s.len(),
{
    if s.len() == 0 {
        0
    } else {
        digits_value(s.drop_last(), radix) * radix + digit_value(s.last(), radix).unwrap_or(0)
    }
}

/// The digits of an unsigned number, which may be preceded by a plus sign.
pub open spec fn unsigned_digits(s: Seq<char>) -> Seq<char> {
    if s.len() > 0 && s[0] == '+' {
        s.skip(1)
    } else {
        s
    }
}

/// The unsigned number that a text writes: an optional plus sign followed by at least one digit
/// and nothing else. A number above `max` is no number.
pub open spec fn parse_unsigned(s: Seq<char>, radix: nat, max: nat) -> Option<nat> {
    let digits = unsigned_digits(s);
    if digits.len() > 0 && all_digits(digits, radix) && digits_value(digits, radix) <= max {
        Some(digits_value(digits, radix))
    } else {
        None
    }
}

/// Nothing but digits is read as a number, save for a plus sign before them, and no number above
/// the largest one.
pub proof fn law_only_numbers_are_read(s: Seq<char>, max: nat)
    requires
        parse_unsigned(s, 10, max) is Some,
    ensures
        parse_unsigned(s, 10, max).unwrap() <= max,
        s.len() > 0,
        s[0] == '+' ==> s.len() > 1,
        forall|i: int| 0 <= i < s.len() ==> '0' <= #[trigger] s[i] <= '9' || (i == 0 && s[i] == '+'),
{
    let digits = unsigned_digits(s);
    assert forall|i: int| 0 <= i < s.len() implies '0' <= #[trigger] s[i] <= '9' || (i == 0 && s[i]
        == '+') by {
        if s[0] == '+' {
            if i > 0 {
                assert(digits[i - 1] == s[i]);
                assert(digit_value(digits[i - 1], 10) is Some);
                lemma_decimal_character(s[i]);
            }
        } else {
            assert(digit_value(digits[i], 10) is Some);
            lemma_decimal_character(s[i]);
        }
    }
}

/// A decimal digit is one of the characters from zero to nine, and its value counts from zero.
pub proof fn lemma_decimal_character(c: char)
    ensures
        digit_value(c, 10) is Some <==> '0' <= c <= '9',
        '0' <= c <= '9' ==> digit_value(c, 10) == Some((c as u32 - '0' as u32) as nat),
{
}

/// The digits of a hexadecimal number are those from zero to nine and the letters from a to f,
/// capital or small, which count on from ten.
pub proof fn law_hexadecimal_digits(c: char)
    ensures
        digit_value(c, 16) == (if '0' <= c <= '9' {
            Some((c as u32 - '0' as u32) as nat)
        } else if 'a' <= c <= 'f' {
            Some((10 + (c as u32 - 'a' as u32)) as nat)
        } else if 'A' <= c <= 'F' {
            Some((10 + (c as u32 - 'A' as u32)) as nat)
        } else {
            None
        }),
{
}

/// A hexadecimal digit more multiplies a number by sixteen and adds to it.
pub proof fn law_hexadecimal_digits_are_added_up(s: Seq<char>, c: char, max: nat)
    requires
        digit_value(c, 16) is Some,
    ensures
        ({
            let digit = digit_value(c, 16).unwrap();
            &&& digit <= max ==> parse_unsigned(seq![c], 16, max) == Some(digit)
            &&& parse_unsigned(s, 16, max) matches Some(n) ==> parse_unsigned(s.push(c), 16, max)
                == (if 16 * n + digit <= max {
                Some(16 * n + digit)
            } else {
                None
            })
        }),
{
    let one = seq![c];
    assert(one.drop_last() =~= seq![]);
    assert(unsigned_digits(one) == one);
    assert(all_digits(one, 16));
    reveal_with_fuel(digits_value, 2);
    if parse_unsigned(s, 16, max) is Some {
        let digits = unsigned_digits(s);
        let longer = s.push(c);
        assert(longer[0] == s[0]);
        assert(unsigned_digits(longer) =~= digits.push(c));
        assert(digits.push(c).drop_last() =~= digits);
        assert forall|i: int| 0 <= i < digits.push(c).len() implies digit_value(
            #[trigger] digits.push(c)[i],
            16,
        ) is Some by {
            if i < digits.len() {
                assert(digits.push(c)[i] == digits[i]);
            }
        }
    }
}

/// A digit more multiplies a number by ten and adds to it. A number is no number once it is above
/// the largest one.
pub proof fn law_digits_are_added_up(s: Seq<char>, c: char, max: nat)
    requires
        '0' <= c <= '9',
    ensures
        ({
            let digit = (c as u32 - '0' as u32) as nat;
            &&& digit <= max ==> parse_unsigned(seq![c], 10, max) == Some(digit)
            &&& digit > max ==> parse_unsigned(seq![c], 10, max) is None
            &&& parse_unsigned(s, 10, max) matches Some(n) ==> parse_unsigned(s.push(c), 10, max) == (if
            10 * n + digit <= max {
                Some(10 * n + digit)
            } else {
                None
            })
        }),
{
    lemma_decimal_character(c);
    let one = seq![c];
    assert(one.drop_last() =~= seq![]);
    assert(unsigned_digits(one) == one);
    assert(all_digits(one, 10));
    reveal_with_fuel(digits_value, 2);
    if parse_unsigned(s, 10, max) is Some {
        let digits = unsigned_digits(s);
        let longer = s.push(c);
        assert(longer[0] == s[0]);
        assert(unsigned_digits(longer) =~= digits.push(c));
        assert(digits.push(c).drop_last() =~= digits);
        assert forall|i: int| 0 <= i < digits.push(c).len() implies digit_value(
            #[trigger] digits.push(c)[i],
            10,
        ) is Some by {
            if i < digits.len() {
                assert(digits.push(c)[i] == digits[i]);
            }
        }
        let n = digits_value(digits, 10);
        assert(digits_value(digits.push(c), 10) == n * 10 + (c as u32 - '0' as u32) as nat);
    }
}

/// The text with every occurrence of `pattern`, taken from left to right and without overlaps,
/// replaced.
pub open spec fn replace(s: Seq<char>, pattern: Seq<char>, with: Seq<char>) -> Seq<char>
    recommends
        pattern.len() > 0,
    decreases s.len(),
{
    if pattern.len() == 0 || s.len() < pattern.len() {
        s
    } else if matches_at(s, 0, pattern) {
        with + replace(s.skip(pattern.len() as int), pattern, with)
    } else {
        seq![s[0]] + replace(s.skip(1), pattern, with)
    }
}

/// The decimal digit of a number below ten.
pub open spec fn decimal_digit(n: nat) -> char {
    if n == 0 {
        '0'
    } else if n == 1 {
        '1'
    } else if n == 2 {
        '2'
    } else if n == 3 {
        '3'
    } else if n == 4 {
        '4'
    } else if n == 5 {
        '5'
    } else if n == 6 {
        '6'
    } else if n == 7 {
        '7'
    } else if n == 8 {
        '8'
    } else {
        '9'
    }
}

/// A number in decimal notation, without leading zeros.
pub open spec fn decimal(n: nat) -> Seq<char>
    decreases n,
{
    if n < 10 {
        seq![decimal_digit(n)]
    } else {
        decimal(n / 10) + seq![decimal_digit(n % 10)]
    }
}

/// A number in decimal notation is made of digits, at least one, which write that number.
proof fn lemma_decimal(n: nat)
    ensures
        decimal(n).len() > 0,
        all_digits(decimal(n), 10),
        digits_value(decimal(n), 10) == n,
    decreases n,
{
    if n < 10 {
        assert(decimal(n).drop_last() =~= seq![]);
        reveal_with_fuel(digits_value, 2);
    } else {
        lemma_decimal(n / 10);
        assert(decimal(n).drop_last() =~= decimal(n / 10));
        assert forall|i: int| 0 <= i < decimal(n).len() implies digit_value(
            #[trigger] decimal(n)[i],
            10,
        ) is Some by {
            if i < decimal(n).len() - 1 {
                assert(decimal(n)[i] == decimal(n / 10)[i]);
            }
        }
    }
}

/// A number in decimal notation is read as that number.
pub proof fn law_decimal_is_read(n: nat, max: nat)
    requires
        n <= max,
    ensures
        parse_unsigned(decimal(n), 10, max) == Some(n),
{
    lemma_decimal(n);
    assert(digit_value(decimal(n)[0], 10) is Some);
}

/// A number in decimal notation holds digits alone.
pub proof fn lemma_decimal_holds_digits(n: nat, c: char)
    requires
        digit_value(c, 10) is None,
    ensures
        !decimal(n).contains(c),
{
    lemma_decimal(n);
}

/// A number in decimal notation is written with the characters from zero to nine alone, so that it
/// has no whitespace around it.
pub proof fn lemma_decimal_characters(n: nat)
    ensures
        decimal(n).len() > 0,
        forall|i: int| 0 <= i < decimal(n).len() ==> '0' <= #[trigger] decimal(n)[i] <= '9',
        forall|i: int| 0 <= i < decimal(n).len() ==> !is_whitespace(#[trigger] decimal(n)[i]),
        trim(decimal(n)) == decimal(n),
{
    lemma_decimal(n);
    let d = decimal(n);
    assert forall|i: int| 0 <= i < d.len() implies '0' <= #[trigger] d[i] <= '9' && !is_whitespace(
        d[i],
    ) by {
        lemma_decimal_character(d[i]);
        law_whitespace(d[i]);
    }
    let nothing: Seq<char> = seq![];
    law_trim_undoes_padding(nothing, d, nothing);
    assert(nothing + d + nothing =~= d);
}

/// The hexadecimal digit of a number below sixteen.
pub open spec fn hexadecimal_digit(n: nat) -> char {
    if n < 10 {
        decimal_digit(n)
    } else if n == 10 {
        'a'
    } else if n == 11 {
        'b'
    } else if n == 12 {
        'c'
    } else if n == 13 {
        'd'
    } else if n == 14 {
        'e'
    } else {
        'f'
    }
}

/// A number in hexadecimal notation, without leading zeros.
pub open spec fn hexadecimal(n: nat) -> Seq<char>
    decreases n,
{
    if n < 16 {
        seq![hexadecimal_digit(n)]
    } else {
        hexadecimal(n / 16) + seq![hexadecimal_digit(n % 16)]
    }
}

/// A number in hexadecimal notation is made of digits, at least one, which write that number.
pub proof fn lemma_hexadecimal(n: nat)
    ensures
        hexadecimal(n).len() > 0,
        all_digits(hexadecimal(n), 16),
        digits_value(hexadecimal(n), 16) == n,
    decreases n,
{
    if n < 16 {
        assert(hexadecimal(n).drop_last() =~= seq![]);
        reveal_with_fuel(digits_value, 2);
    } else {
        lemma_hexadecimal(n / 16);
        assert(hexadecimal(n).drop_last() =~= hexadecimal(n / 16));
        assert forall|i: int| 0 <= i < hexadecimal(n).len() implies digit_value(
            #[trigger] hexadecimal(n)[i],
            16,
        ) is Some by {
            if i < hexadecimal(n).len() - 1 {
                assert(hexadecimal(n)[i] == hexadecimal(n / 16)[i]);
            }
        }
    }
}

/// A number in hexadecimal notation is read as that number.
pub proof fn law_hexadecimal_is_read(n: nat, max: nat)
    requires
        n <= max,
    ensures
        parse_unsigned(hexadecimal(n), 16, max) == Some(n),
{
    lemma_hexadecimal(n);
    assert(digit_value(hexadecimal(n)[0], 16) is Some);
}

/// A part of a text, given by the positions of its first character and of the character after
/// its last.
#[derive(Clone, Copy)]
pub struct Span {
    pub start: usize,
    pub end: usize,
}

impl Span {
    /// Whether the span lies within a text of the given length.
    pub open spec fn within(self, length: nat) -> bool {
        self.start <= self.end <= length
    }

    /// The characters the span covers.
    pub open spec fn of(self, s: Seq<char>) -> Seq<char> {
        s.subrange(self.start as int, self.end as int)
    }
}

} // verus!
