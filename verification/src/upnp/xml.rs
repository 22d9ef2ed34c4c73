//! The narrow XML used by device descriptions, SOAP responses and events.

use vstd::prelude::*;
use vstd::string::*;

use crate::scan;
use crate::scan::{chars_of, find_pattern, replace_all, trim_span};
use crate::text;
use crate::text::Span;

verus! {

/// The opening form of a tag.
pub open spec fn opening(tag: Seq<char>) -> Seq<char> {
    "<"@ + tag + ">"@
}

/// The closing form of a tag.
pub open spec fn closing(tag: Seq<char>) -> Seq<char> {
    "</"@ + tag + ">"@
}

/// The trimmed text between the first opening form of a tag and the first closing form after it.
pub open spec fn tag_value(xml: Seq<char>, tag: Seq<char>) -> Option<Seq<char>> {
    match text::find(xml, opening(tag)) {
        Some(i) => {
            let start = i + opening(tag).len();
            match text::find_from(xml, closing(tag), start) {
                Some(end) => Some(text::trim(xml.subrange(start, end))),
                None => None,
            }
        },
        None => None,
    }
}

/// Find the trimmed text content of the first occurrence of an XML tag.
/// The narrow XML used by UPnP device descriptions and SOAP responses places values
/// in unprefixed tags without attributes, which avoids needing a full XML parser.
pub fn find_tag_value<'a>(xml: &'a str, tag: &str) -> (value: Option<&'a str>)
    ensures
        match value {
            Some(v) => tag_value(xml@, tag@) == Some(v@),
            None => tag_value(xml@, tag@) is None,
        },
{
    let mut open = "<".to_owned();
    open.append(tag);
    open.append(">");
    let mut close = "</".to_owned();
    close.append(tag);
    close.append(">");

    let chars = chars_of(xml);
    let open_chars = chars_of(open.as_str());
    let close_chars = chars_of(close.as_str());
    let start: usize = match find_pattern(chars.as_slice(), open_chars.as_slice(), 0) {
        Some(i) => i + open_chars.len(),
        None => {
            return None;
        },
    };
    match find_pattern(chars.as_slice(), close_chars.as_slice(), start) {
        Some(end) => {
            let trimmed = trim_span(chars.as_slice(), Span { start, end });
            Some(xml.substring_char(trimmed.start, trimmed.end))
        },
        None => None,
    }
}

/// The text of an element is found and trimmed, when no other tag comes before it or stands in it.
pub proof fn law_element_text_is_found(
    before: Seq<char>,
    tag: Seq<char>,
    value: Seq<char>,
    after: Seq<char>,
)
    requires
        !before.contains('<'),
        !value.contains('<'),
    ensures
        tag_value(before + opening(tag) + value + closing(tag) + after, tag) == Some(
            text::trim(value),
        ),
{
    reveal_strlit("<");
    reveal_strlit("</");
    let xml = before + opening(tag) + value + closing(tag) + after;
    let at = before.len() as int;
    let start = at + opening(tag).len();
    let end = start + value.len();
    assert(opening(tag)[0] == '<');
    assert(closing(tag)[0] == '<');
    assert(xml.subrange(at, start) =~= opening(tag));
    assert forall|j: int| 0 <= j < at implies !#[trigger] text::matches_at(xml, j, opening(tag)) by {
        assert(xml[j] == before[j]);
        if text::matches_at(xml, j, opening(tag)) {
            assert(xml.subrange(j, j + opening(tag).len())[0] == xml[j]);
        }
    }
    text::lemma_find_is(xml, opening(tag), 0, at);
    assert(xml.subrange(end, end + closing(tag).len()) =~= closing(tag));
    assert forall|j: int| start <= j < end implies !#[trigger] text::matches_at(
        xml,
        j,
        closing(tag),
    ) by {
        assert(xml[j] == value[j - start]);
        if text::matches_at(xml, j, closing(tag)) {
            assert(xml.subrange(j, j + closing(tag).len())[0] == xml[j]);
        }
    }
    text::lemma_find_is(xml, closing(tag), start, end);
    assert(xml.subrange(start, end) =~= value);
}

/// An element with a text.
pub open spec fn element(tag: Seq<char>, value: Seq<char>) -> Seq<char> {
    seq!['<'] + tag + seq!['>'] + value + seq!['<', '/'] + tag + seq!['>']
}

/// Whether a text can be the name of a tag.
pub open spec fn is_name(tag: Seq<char>) -> bool {
    &&& tag.len() > 0
    &&& !tag.contains('<')
    &&& !tag.contains('>')
    &&& tag[0] != '/'
}

/// The text of the first element with a tag is found and trimmed. Elements with other tags before
/// it are passed over. A text without any tag has no elements.
pub proof fn law_elements_are_told_apart(
    tag: Seq<char>,
    other: Seq<char>,
    value: Seq<char>,
    rest: Seq<char>,
)
    requires
        is_name(tag),
        is_name(other),
        !value.contains('<'),
    ensures
        tag_value(element(tag, value) + rest, tag) == Some(text::trim(value)),
        other != tag ==> tag_value(element(other, value) + rest, tag) == tag_value(rest, tag),
        tag_value(value + rest, tag) == tag_value(rest, tag),
        tag_value(value, tag) is None,
{
    let nothing: Seq<char> = seq![];
    reveal_strlit("<");
    reveal_strlit(">");
    reveal_strlit("</");
    law_element_text_is_found(nothing, tag, value, rest);
    assert(element(tag, value) + rest =~= nothing + opening(tag) + value + closing(tag) + rest);
    if other != tag {
        let passed = element(other, value);
        let all = passed + rest;
        assert forall|j: int| 0 <= j < passed.len() implies !#[trigger] text::matches_at(
            all,
            j,
            opening(tag),
        ) by {
            lemma_not_within_element(tag, other, value, rest, j);
        }
        lemma_passed(passed, rest, tag);
    }
    lemma_text_is_passed(value, rest, tag);
    lemma_text_is_passed(value, nothing, tag);
    assert(value + nothing =~= value);
    text::lemma_find_none(nothing, opening(tag), 0);
}

/// No opening form begins in a text without a tag.
proof fn lemma_text_is_passed(before: Seq<char>, rest: Seq<char>, tag: Seq<char>)
    requires
        !before.contains('<'),
    ensures
        tag_value(before + rest, tag) == tag_value(rest, tag),
{
    reveal_strlit("<");
    let all = before + rest;
    assert forall|j: int| 0 <= j < before.len() implies !#[trigger] text::matches_at(
        all,
        j,
        opening(tag),
    ) by {
        if text::matches_at(all, j, opening(tag)) {
            assert(all.subrange(j, j + opening(tag).len())[0] == all[j]);
            assert(all[j] == before[j]);
        }
    }
    lemma_passed(before, rest, tag);
}

/// The opening form of a tag does not begin within an element with another tag.
proof fn lemma_not_within_element(
    tag: Seq<char>,
    other: Seq<char>,
    value: Seq<char>,
    rest: Seq<char>,
    j: int,
)
    requires
        is_name(tag),
        is_name(other),
        other != tag,
        !value.contains('<'),
        0 <= j < element(other, value).len(),
    ensures
        !text::matches_at(element(other, value) + rest, j, opening(tag)),
{
    reveal_strlit("<");
    reveal_strlit(">");
    let passed = element(other, value);
    let all = passed + rest;
    let open = opening(tag);
    let n = other.len() as int;
    let m = tag.len() as int;
    if text::matches_at(all, j, open) {
        assert(all.subrange(j, j + open.len()) == open);
        assert(open[0] == '<');
        assert forall|k: int| 0 <= k < open.len() implies open[k] == all[j + k] by {
            assert(all.subrange(j, j + open.len())[k] == all[j + k]);
        }
        assert(all[j] == passed[j]);
        if j == 0 {
            if m == n {
                assert forall|k: int| 0 <= k < n implies tag[k] == other[k] by {
                    assert(open[k + 1] == all[k + 1]);
                    assert(all[k + 1] == passed[k + 1]);
                }
                assert(tag =~= other);
            } else if m < n {
                assert(open[m + 1] == '>');
                assert(all[m + 1] == passed[m + 1]);
                assert(passed[m + 1] == other[m]);
                assert(other.contains(other[m]));
            } else {
                assert(open[n + 1] == tag[n]);
                assert(all[n + 1] == passed[n + 1]);
                assert(passed[n + 1] == '>');
                assert(tag.contains(tag[n]));
            }
        } else if j < n + 1 {
            assert(passed[j] == other[j - 1]);
            assert(other.contains(other[j - 1]));
        } else if j == n + 1 {
            assert(passed[j] == '>');
        } else if j < n + 2 + value.len() {
            assert(passed[j] == value[j - n - 2]);
            assert(value.contains(value[j - n - 2]));
        } else if j == n + 2 + value.len() {
            assert(open[1] == tag[0]);
            assert(all[j + 1] == passed[j + 1]);
            assert(passed[j + 1] == '/');
        } else if j == n + 3 + value.len() {
            assert(passed[j] == '/');
        } else if j < 2 * n + 4 + value.len() {
            assert(passed[j] == other[j - n - 4 - value.len()]);
            assert(other.contains(other[j - n - 4 - value.len()]));
        } else {
            assert(passed[j] == '>');
        }
    }
}

/// What comes before the first opening form of a tag does not matter.
proof fn lemma_passed(before: Seq<char>, rest: Seq<char>, tag: Seq<char>)
    requires
        forall|j: int|
            0 <= j < before.len() ==> !#[trigger] text::matches_at(before + rest, j, opening(tag)),
    ensures
        tag_value(before + rest, tag) == tag_value(rest, tag),
{
    let all = before + rest;
    let n = before.len() as int;
    assert(all.skip(n) =~= rest);
    scan::lemma_find_suffix(all, opening(tag), n);
    text::lemma_find_from(all, opening(tag), n);
    text::lemma_find_from(all, opening(tag), 0);
    match text::find_from(all, opening(tag), n) {
        Some(i) => {
            text::lemma_find_is(all, opening(tag), 0, i);
            let start = i + opening(tag).len();
            assert(all.skip(start) =~= rest.skip(start - n));
            scan::lemma_find_suffix(all, closing(tag), start);
            scan::lemma_find_suffix(rest, closing(tag), start - n);
            text::lemma_find_from(all, closing(tag), start);
            if let Some(end) = text::find_from(all, closing(tag), start) {
                assert(all.subrange(start, end) =~= rest.subrange(start - n, end - n));
            }
        },
        None => {
            text::lemma_find_none(all, opening(tag), 0);
        },
    }
}

/// Elements with a text, one after the other.
pub open spec fn elements(list: Seq<(Seq<char>, Seq<char>)>) -> Seq<char>
    decreases list.len(),
{
    if list.len() == 0 {
        seq![]
    } else {
        element(list[0].0, list[0].1) + elements(list.skip(1))
    }
}

/// Whether each of several elements has the name of a tag, and a text without a tag.
pub open spec fn are_plain(list: Seq<(Seq<char>, Seq<char>)>) -> bool {
    forall|k: int|
        0 <= k < list.len() ==> is_name((#[trigger] list[k]).0) && !list[k].1.contains('<')
}

/// Of elements one after the other, the text of the first with a tag is found and trimmed. None is
/// found when no element has the tag.
pub proof fn law_element_is_found_among_others(
    list: Seq<(Seq<char>, Seq<char>)>,
    tag: Seq<char>,
    i: int,
)
    requires
        are_plain(list),
        is_name(tag),
        0 <= i <= list.len(),
        forall|k: int| 0 <= k < i ==> (#[trigger] list[k]).0 != tag,
        i < list.len() ==> list[i].0 == tag,
    ensures
        i < list.len() ==> tag_value(elements(list), tag) == Some(text::trim(list[i].1)),
        i == list.len() ==> tag_value(elements(list), tag) is None,
    decreases list.len(),
{
    let nothing: Seq<char> = seq![];
    if list.len() == 0 {
        law_elements_are_told_apart(tag, tag, nothing, nothing);
    } else {
        let rest = list.skip(1);
        assert(list[0].0.len() > 0);
        law_elements_are_told_apart(tag, list[0].0, list[0].1, elements(rest));
        if i > 0 {
            assert forall|k: int| 0 <= k < rest.len() implies is_name((#[trigger] rest[k]).0)
                && !rest[k].1.contains('<') by {
                assert(rest[k] == list[k + 1]);
            }
            assert forall|k: int| 0 <= k < i - 1 implies (#[trigger] rest[k]).0 != tag by {
                assert(rest[k] == list[k + 1]);
            }
            law_element_is_found_among_others(rest, tag, i - 1);
        }
    }
}

/// A text from which something is missing: an element that is not closed has no value.
pub proof fn law_open_elements_have_no_value(tag: Seq<char>, value: Seq<char>)
    requires
        is_name(tag),
        !value.contains('<'),
    ensures
        tag_value(seq!['<'] + tag + seq!['>'] + value, tag) is None,
{
    reveal_strlit("<");
    reveal_strlit(">");
    reveal_strlit("</");
    let all = seq!['<'] + tag + seq!['>'] + value;
    let start = opening(tag).len() as int;
    assert(all.subrange(0, start) =~= opening(tag));
    text::lemma_find_is(all, opening(tag), 0, 0);
    assert forall|j: int| start <= j implies !#[trigger] text::matches_at(all, j, closing(tag)) by {
        if text::matches_at(all, j, closing(tag)) {
            assert(all.subrange(j, j + closing(tag).len())[0] == all[j]);
            assert(closing(tag)[0] == '<');
            assert(all[j] == value[j - start]);
        }
    }
    text::lemma_find_none(all, closing(tag), start);
}

/// A value with its predefined XML entities decoded.
pub open spec fn decoded(value: Seq<char>) -> Seq<char> {
    let v1 = text::replace(value, "&lt;"@, "<"@);
    let v2 = text::replace(v1, "&gt;"@, ">"@);
    let v3 = text::replace(v2, "&quot;"@, "\""@);
    let v4 = text::replace(v3, "&apos;"@, "'"@);
    text::replace(v4, "&amp;"@, "&"@)
}

/// Decode the predefined XML entities in a value extracted from a description.
/// `&amp;` is decoded last so that double-escaped values are not decoded twice.
pub fn decode_xml_entities(value: &str) -> (plain: String)
    ensures
        plain@ == decoded(value@),
{
    proof {
        reveal_strlit("&lt;");
        reveal_strlit("&gt;");
        reveal_strlit("&quot;");
        reveal_strlit("&apos;");
        reveal_strlit("&amp;");
    }
    let v1 = replace_all(value, "&lt;", "<");
    let v2 = replace_all(v1.as_str(), "&gt;", ">");
    let v3 = replace_all(v2.as_str(), "&quot;", "\"");
    let v4 = replace_all(v3.as_str(), "&apos;", "'");
    replace_all(v4.as_str(), "&amp;", "&")
}

/// How a character is written while the first `stage` of the entities `&lt;`, `&gt;`, `&quot;`,
/// `&apos;` and `&amp;` are written plainly and the others are escaped.
pub open spec fn written(c: char, stage: int) -> Seq<char> {
    if c == '<' && stage < 1 {
        "&lt;"@
    } else if c == '>' && stage < 2 {
        "&gt;"@
    } else if c == '"' && stage < 3 {
        "&quot;"@
    } else if c == '\'' && stage < 4 {
        "&apos;"@
    } else if c == '&' && stage < 5 {
        "&amp;"@
    } else {
        seq![c]
    }
}

/// A text written character by character.
pub open spec fn all_written(s: Seq<char>, stage: int) -> Seq<char>
    decreases s.len(),
{
    if s.len() == 0 {
        seq![]
    } else {
        written(s[0], stage) + all_written(s.skip(1), stage)
    }
}

/// A value with the characters that have a predefined XML entity escaped.
pub open spec fn escaped(value: Seq<char>) -> Seq<char> {
    all_written(value, 0)
}

/// A replacement passes over a prefix in which the pattern does not begin.
proof fn lemma_replace_passes(
    prefix: Seq<char>,
    rest: Seq<char>,
    pattern: Seq<char>,
    with: Seq<char>,
)
    requires
        pattern.len() > 0,
        forall|i: int| 0 <= i < prefix.len() ==> !#[trigger] text::matches_at(prefix + rest, i, pattern),
    ensures
        text::replace(prefix + rest, pattern, with) == prefix + text::replace(rest, pattern, with),
    decreases prefix.len(),
{
    let all = prefix + rest;
    if prefix.len() == 0 {
        assert(all =~= rest);
        assert(prefix + text::replace(rest, pattern, with) =~= text::replace(rest, pattern, with));
    } else {
        assert(!text::matches_at(all, 0, pattern));
        let tail = prefix.skip(1);
        assert(all.skip(1) =~= tail + rest);
        assert forall|i: int| 0 <= i < tail.len() implies !#[trigger] text::matches_at(
            tail + rest,
            i,
            pattern,
        ) by {
            assert(!text::matches_at(all, i + 1, pattern));
            if text::matches_at(tail + rest, i, pattern) {
                assert(all.subrange(i + 1, i + 1 + pattern.len()) =~= (tail + rest).subrange(
                    i,
                    i + pattern.len(),
                ));
            }
        }
        lemma_replace_passes(tail, rest, pattern, with);
        let replaced = text::replace(rest, pattern, with);
        assert(text::replace(all, pattern, with) =~= prefix + replaced) by {
            if all.len() >= pattern.len() {
                assert(text::replace(all, pattern, with) == seq![all[0]] + text::replace(
                    all.skip(1),
                    pattern,
                    with,
                ));
            } else {
                assert(text::replace(all, pattern, with) == all);
                assert(text::replace(all.skip(1), pattern, with) == all.skip(1));
            }
        }
    }
}

/// The entity that is replaced at a stage.
spec fn entity(stage: int) -> Seq<char> {
    if stage == 0 {
        "&lt;"@
    } else if stage == 1 {
        "&gt;"@
    } else if stage == 2 {
        "&quot;"@
    } else if stage == 3 {
        "&apos;"@
    } else {
        "&amp;"@
    }
}

/// The character that the entity replaced at a stage stands for.
spec fn plain(stage: int) -> char {
    if stage == 0 {
        '<'
    } else if stage == 1 {
        '>'
    } else if stage == 2 {
        '"'
    } else if stage == 3 {
        '\''
    } else {
        '&'
    }
}

/// Replacing one entity turns a text written at one stage into the text written at the next.
proof fn lemma_stage(s: Seq<char>, stage: int)
    requires
        0 <= stage < 5,
    ensures
        text::replace(all_written(s, stage), entity(stage), seq![plain(stage)]) == all_written(s, stage + 1),
    decreases s.len(),
{
    reveal_strlit("&lt;");
    reveal_strlit("&gt;");
    reveal_strlit("&quot;");
    reveal_strlit("&apos;");
    reveal_strlit("&amp;");
    let pattern = entity(stage);
    let with = seq![plain(stage)];
    let t = all_written(s, stage);
    if s.len() == 0 {
        assert(text::replace(t, pattern, with) =~= t);
    } else {
        let c = s[0];
        let token = written(c, stage);
        let rest = all_written(s.skip(1), stage);
        lemma_stage(s.skip(1), stage);
        if c == plain(stage) {
            assert(t.subrange(0, pattern.len() as int) =~= pattern);
            assert(text::matches_at(t, 0, pattern));
            assert(t.skip(pattern.len() as int) =~= rest);
            assert(written(c, stage + 1) == with);
        } else {
            assert forall|i: int| 0 <= i < token.len() implies !#[trigger] text::matches_at(
                token + rest,
                i,
                pattern,
            ) by {
                if text::matches_at(token + rest, i, pattern) {
                    let part = (token + rest).subrange(i, i + pattern.len());
                    assert(part == pattern);
                    assert(part[0] == token[i]);
                    assert(i == 0);
                    assert(token.len() > 1);
                    assert(part[1] == token[1]);
                    assert(part[2] == token[2]);
                    assert(false);
                }
            }
            lemma_replace_passes(token, rest, pattern, with);
            assert(written(c, stage + 1) == token);
        }
    }
}

/// At the last stage a text is written as it is.
proof fn lemma_written_plainly(s: Seq<char>)
    ensures
        all_written(s, 5) == s,
    decreases s.len(),
{
    if s.len() > 0 {
        lemma_written_plainly(s.skip(1));
        assert(all_written(s, 5) =~= s);
    }
}

/// Escaping writes each of the characters that have a predefined XML entity as that entity, and
/// every other character as itself.
pub proof fn law_characters_are_escaped(c: char, rest: Seq<char>)
    ensures
        escaped(seq![c] + rest) == (match c {
            '<' => "&lt;"@,
            '>' => "&gt;"@,
            '"' => "&quot;"@,
            '\'' => "&apos;"@,
            '&' => "&amp;"@,
            _ => seq![c],
        }) + escaped(rest),
        escaped(Seq::<char>::empty()) == Seq::<char>::empty(),
{
    assert((seq![c] + rest).skip(1) =~= rest);
}

/// Decoding undoes exactly one level of escaping.
pub proof fn law_decoding_undoes_escaping(value: Seq<char>)
    ensures
        decoded(escaped(value)) == value,
{
    reveal_strlit("<");
    reveal_strlit(">");
    reveal_strlit("\"");
    reveal_strlit("'");
    reveal_strlit("&");
    assert("<"@ =~= seq!['<']);
    assert(">"@ =~= seq!['>']);
    assert("\""@ =~= seq!['"']);
    assert("'"@ =~= seq!['\'']);
    assert("&"@ =~= seq!['&']);
    lemma_stage(value, 0);
    lemma_stage(value, 1);
    lemma_stage(value, 2);
    lemma_stage(value, 3);
    lemma_stage(value, 4);
    lemma_written_plainly(value);
}

} // verus!
