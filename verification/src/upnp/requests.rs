//! What the requests to a gateway say.
//!
//! The requests are texts. Their laws say what is read from them again: the words of the first
//! line, the values of the headers, and the body.

use vstd::prelude::*;
use vstd::utf8::*;

use crate::address::GatewayAddress;
use crate::text;
use crate::upnp::http;
use crate::upnp::location;
use crate::upnp::search;
use crate::upnp::soap;
use crate::upnp::subscription;

verus! {

/// Whether a text can be a word of a line: it is not empty and holds no whitespace.
pub open spec fn is_word(s: Seq<char>) -> bool {
    &&& s.len() > 0
    &&& forall|k: int| 0 <= k < s.len() ==> !text::is_whitespace(#[trigger] s[k])
}

/// Whether a text can be the value of a header: it is on one line and has no whitespace around it.
pub open spec fn is_value(s: Seq<char>) -> bool {
    &&& !s.contains('\n')
    &&& text::is_trimmed(s)
}

/// The value that a request gives for a header, be its name in capital or small letters.
pub open spec fn given(request: Seq<char>, name: Seq<char>) -> Option<Seq<char>> {
    search::first_header(text::lines(request).skip(1), name)
}

/// Whether a request begins with a line of a method, a path and the version of the protocol.
pub open spec fn requests(request: Seq<char>, method: Seq<char>, path: Seq<char>) -> bool {
    let lines = text::lines(request);
    &&& lines.len() > 0
    &&& text::word(lines[0], 0) == Some(method)
    &&& text::word(lines[0], 1) == Some(path)
    &&& text::word(lines[0], 2) == Some("HTTP/1.1"@)
    &&& text::word(lines[0], 3) is None
}

/// Putting texts together is associative.
proof fn lemma_associative(a: Seq<char>, b: Seq<char>, c: Seq<char>)
    ensures
        a + b + c == a + (b + c),
{
    assert(a + b + c =~= a + (b + c));
}

/// A text ends where nothing follows.
proof fn lemma_end(a: Seq<char>)
    ensures
        a == a + Seq::<char>::empty(),
{
    assert(a =~= a + Seq::<char>::empty());
}

/// Two texts on one line are on one line together.
proof fn lemma_one_line(a: Seq<char>, b: Seq<char>)
    requires
        !a.contains('\n'),
        !b.contains('\n'),
    ensures
        !(a + b).contains('\n'),
{
    assert forall|i: int| 0 <= i < (a + b).len() implies (a + b)[i] != '\n' by {
        if i < a.len() {
            assert(a.contains(a[i]));
        } else {
            assert(b.contains(b[i - a.len()]));
        }
    }
}

/// A word is on one line, and no whitespace is in it.
proof fn lemma_word(s: Seq<char>)
    requires
        is_word(s),
    ensures
        !s.contains('\n'),
        forall|k: int| 0 <= k < s.len() ==> !text::is_ascii_whitespace(#[trigger] s[k]),
{
    assert forall|k: int| 0 <= k < s.len() implies #[trigger] s[k] != '\n'
        && !text::is_ascii_whitespace(s[k]) by {
        text::law_whitespace(s[k]);
        text::law_whitespace('\n');
    }
}

/// The words of a request line are read.
proof fn lemma_request_line(line: Seq<char>, method: Seq<char>, path: Seq<char>)
    requires
        is_word(method),
        is_word(path),
        line == method + " "@ + (path + " "@ + "HTTP/1.1"@),
    ensures
        text::word(line, 0) == Some(method),
        text::word(line, 1) == Some(path),
        text::word(line, 2) == Some("HTTP/1.1"@),
        text::word(line, 3) is None,
{
    reveal_strlit("HTTP/1.1");
    lemma_word(method);
    lemma_word(path);
    let version = "HTTP/1.1"@;
    let rest = path + " "@ + version;
    text::law_word_is_read(method, rest, 0);
    text::law_word_is_read(method, rest, 1);
    text::law_word_is_read(method, rest, 2);
    text::law_word_is_read(path, version, 0);
    text::law_word_is_read(path, version, 1);
    text::law_word_is_read(version, version, 0);
}

/// A number is on one line and has no whitespace around it.
proof fn lemma_number(n: nat)
    ensures
        is_value(text::decimal(n)),
{
    text::lemma_decimal_characters(n);
    let d = text::decimal(n);
    assert forall|k: int| 0 <= k < d.len() implies #[trigger] d[k] != '\n' by {
        assert('0' <= d[k] <= '9');
    }
}

/// The line of a header.
pub open spec fn header_line(field: (Seq<char>, Seq<char>)) -> Seq<char> {
    field.0 + ": "@ + field.1
}

/// A first line and the headers that follow it.
pub open spec fn head(first: Seq<char>, fields: Seq<(Seq<char>, Seq<char>)>) -> Seq<char>
    decreases fields.len(),
{
    if fields.len() == 0 {
        first
    } else {
        head(first, fields.drop_last()) + ("\r\n"@ + header_line(fields.last()))
    }
}

/// Whether texts can be the names and values of headers, no two of which have the same name.
pub open spec fn are_headers(fields: Seq<(Seq<char>, Seq<char>)>) -> bool {
    &&& forall|i: int|
        0 <= i < fields.len() ==> {
            &&& is_value((#[trigger] fields[i]).0)
            &&& !fields[i].0.contains(':')
            &&& is_value(fields[i].1)
        }
    &&& forall|i: int, j: int|
        0 <= i < j < fields.len() ==> !text::eq_ignore_case(
            (#[trigger] fields[i]).0,
            (#[trigger] fields[j]).0,
        )
}

/// A header is written as its name and its value behind the line before it.
proof fn lemma_field(
    first: Seq<char>,
    fields: Seq<(Seq<char>, Seq<char>)>,
    literal: Seq<char>,
    name: Seq<char>,
    value: Seq<char>,
)
    requires
        literal == "\r\n"@ + name + ": "@,
    ensures
        head(first, fields) + literal + value == head(first, fields.push((name, value))),
{
    let more = fields.push((name, value));
    assert(more.drop_last() =~= fields);
    assert(more.last() == (name, value));
    assert(head(first, fields) + literal + value =~= head(first, fields) + ("\r\n"@ + (name + ": "@
        + value)));
}

/// The lines of a head are its first line and the lines of its headers.
proof fn lemma_lines(first: Seq<char>, fields: Seq<(Seq<char>, Seq<char>)>, rest: Seq<char>)
    requires
        !first.contains('\n'),
        are_headers(fields),
    ensures
        text::lines(head(first, fields) + "\r\n"@ + rest) == seq![first] + fields.map_values(
            |field: (Seq<char>, Seq<char>)| header_line(field),
        ) + text::lines(rest),
    decreases fields.len(),
{
    let lines = |list: Seq<(Seq<char>, Seq<char>)>|
        list.map_values(|field: (Seq<char>, Seq<char>)| header_line(field));
    if fields.len() == 0 {
        text::law_line_is_read(first, rest);
        assert(seq![first] + lines(fields) =~= seq![first]);
    } else {
        let before = fields.drop_last();
        let field = fields.last();
        let line = header_line(field);
        assert(field == fields[fields.len() - 1]);
        assert(!(": "@).contains('\n')) by {
            reveal_strlit(": ");
        }
        lemma_one_line(field.0, ": "@);
        lemma_one_line(field.0 + ": "@, field.1);
        assert(are_headers(before)) by {
            assert(forall|i: int| 0 <= i < before.len() ==> before[i] == fields[i]);
        }
        lemma_lines(first, before, line + "\r\n"@ + rest);
        text::law_line_is_read(line, rest);
        assert(head(first, fields) + "\r\n"@ + rest =~= head(first, before) + "\r\n"@ + (line
            + "\r\n"@ + rest));
        assert(lines(fields) =~= lines(before) + seq![line]);
        assert(seq![first] + lines(before) + (seq![line] + text::lines(rest)) =~= seq![first]
            + lines(fields) + text::lines(rest));
    }
}

/// A header line gives its value for its own name, and none for another.
proof fn lemma_header_line(field: (Seq<char>, Seq<char>))
    requires
        !field.0.contains(':'),
        text::is_trimmed(field.0),
        text::is_trimmed(field.1),
    ensures
        http::header(header_line(field)) == Some(field),
        forall|wanted: Seq<char>| #[trigger]
            http::is_header(header_line(field), wanted) <==> text::eq_ignore_case(field.0, wanted),
{
    let (name, value) = field;
    let padded = seq![' '] + value;
    assert(header_line(field) =~= name + seq![':'] + padded) by {
        reveal_strlit(": ");
    }
    http::law_header_is_read(name, padded);
    text::lemma_trimmed(name);
    text::lemma_trimmed(value);
    text::law_whitespace(' ');
    let nothing = Seq::<char>::empty();
    text::law_trim_undoes_padding(seq![' '], value, nothing);
    assert(seq![' '] + value + nothing =~= padded);
}

/// Among header lines the value of each is found, and no value for another name.
proof fn lemma_found(
    fields: Seq<(Seq<char>, Seq<char>)>,
    rest: Seq<Seq<char>>,
    name: Seq<char>,
)
    requires
        are_headers(fields),
    ensures
        ({
            let found = search::first_header(
                fields.map_values(|field: (Seq<char>, Seq<char>)| header_line(field)) + rest,
                name,
            );
            &&& forall|i: int|
                0 <= i < fields.len() && (#[trigger] fields[i]).0 == name ==> found == Some(
                    fields[i].1,
                )
            &&& (forall|i: int|
                0 <= i < fields.len() ==> !text::eq_ignore_case((#[trigger] fields[i]).0, name))
                ==> found == search::first_header(rest, name)
        }),
    decreases fields.len(),
{
    let lines = |list: Seq<(Seq<char>, Seq<char>)>|
        list.map_values(|field: (Seq<char>, Seq<char>)| header_line(field));
    if fields.len() == 0 {
        assert(lines(fields) + rest =~= rest);
    } else {
        let others = fields.skip(1);
        assert(forall|i: int| 0 <= i < others.len() ==> others[i] == fields[i + 1]);
        assert(forall|i: int| 1 <= i < fields.len() ==> fields[i] == others[i - 1]);
        lemma_found(others, rest, name);
        lemma_header_line(fields[0]);
        assert(lines(fields) + rest =~= seq![header_line(fields[0])] + (lines(others) + rest));
        search::law_first_header_counts(header_line(fields[0]), lines(others) + rest, name);
        text::law_case_is_ignored(name, name);
    }
}

/// From a request that is written as a head, an empty line and a body, the words of the first line
/// and the values of the headers are read.
proof fn lemma_request(
    method: Seq<char>,
    path: Seq<char>,
    fields: Seq<(Seq<char>, Seq<char>)>,
    body: Seq<char>,
)
    requires
        is_word(method),
        is_word(path),
        are_headers(fields),
    ensures
        ({
            let request = head(method + " "@ + path + " HTTP/1.1"@, fields) + "\r\n\r\n"@ + body;
            &&& requests(request, method, path)
            &&& forall|i: int|
                0 <= i < fields.len() ==> given(request, (#[trigger] fields[i]).0) == Some(
                    fields[i].1,
                )
            &&& body.len() == 0 ==> forall|name: Seq<char>|
                (forall|i: int|
                    0 <= i < fields.len() ==> !text::eq_ignore_case((#[trigger] fields[i]).0, name))
                    ==> (#[trigger] given(request, name)) is None
        }),
{
    let first = method + " "@ + path + " HTTP/1.1"@;
    let request = head(first, fields) + "\r\n\r\n"@ + body;
    let nothing = Seq::<char>::empty();
    assert(first =~= method + " "@ + (path + " "@ + "HTTP/1.1"@)) by {
        reveal_strlit(" HTTP/1.1");
        reveal_strlit("HTTP/1.1");
        reveal_strlit(" ");
        assert(" HTTP/1.1"@ =~= " "@ + "HTTP/1.1"@);
    }
    lemma_request_line(first, method, path);
    assert(!first.contains('\n')) by {
        reveal_strlit(" HTTP/1.1");
        reveal_strlit(" ");
        lemma_word(method);
        lemma_word(path);
        lemma_one_line(method, " "@);
        lemma_one_line(method + " "@, path);
        lemma_one_line(method + " "@ + path, " HTTP/1.1"@);
    }
    assert(request =~= head(first, fields) + "\r\n"@ + (nothing + "\r\n"@ + body)) by {
        reveal_strlit("\r\n\r\n");
        reveal_strlit("\r\n");
        assert("\r\n\r\n"@ =~= "\r\n"@ + (nothing + "\r\n"@));
    }
    lemma_lines(first, fields, nothing + "\r\n"@ + body);
    text::law_line_is_read(nothing, body);
    let lines = fields.map_values(|field: (Seq<char>, Seq<char>)| header_line(field));
    let rest = seq![nothing] + text::lines(body);
    assert(text::lines(request) == seq![first] + lines + rest);
    assert(text::lines(request).skip(1) =~= lines + rest);
    assert(text::lines(request)[0] == first);
    assert forall|i: int| 0 <= i < fields.len() implies given(request, (#[trigger] fields[i]).0)
        == Some(fields[i].1) by {
        lemma_found(fields, rest, fields[i].0);
    }
    if body.len() == 0 {
        assert(body =~= nothing);
        assert forall|name: Seq<char>|
            (forall|i: int|
                0 <= i < fields.len() ==> !text::eq_ignore_case(
                    (#[trigger] fields[i]).0,
                    name,
                )) implies (#[trigger] given(request, name)) is None by {
            lemma_found(fields, rest, name);
            http::law_header_is_read(nothing, nothing);
            search::law_first_header_counts(nothing, text::lines(body), name);
            assert(text::lines(body) =~= Seq::<Seq<char>>::empty());
        }
    }
}

/// Whether a text ends with the empty line that ends the head of a request.
pub open spec fn ends_head(s: Seq<char>) -> bool {
    s.len() >= 4 && s.skip(s.len() - 4) == seq!['\r', '\n', '\r', '\n']
}

/// An empty line ends a head.
proof fn lemma_ends_head(s: Seq<char>)
    ensures
        ends_head(s + "\r\n\r\n"@),
{
    reveal_strlit("\r\n\r\n");
    let all = s + "\r\n\r\n"@;
    assert(all.skip(all.len() - 4) =~= seq!['\r', '\n', '\r', '\n']);
}

/// The names of the headers of one request differ in more than the case of letters.
#[verifier::rlimit(60)]
proof fn lemma_names()
    ensures
        !text::eq_ignore_case("Host"@, "CALLBACK"@),
        !text::eq_ignore_case("Host"@, "NT"@),
        !text::eq_ignore_case("Host"@, "TIMEOUT"@),
        !text::eq_ignore_case("Host"@, "SID"@),
        !text::eq_ignore_case("Host"@, "Connection"@),
        !text::eq_ignore_case("CALLBACK"@, "Host"@),
        !text::eq_ignore_case("CALLBACK"@, "NT"@),
        !text::eq_ignore_case("CALLBACK"@, "TIMEOUT"@),
        !text::eq_ignore_case("CALLBACK"@, "SID"@),
        !text::eq_ignore_case("CALLBACK"@, "Connection"@),
        !text::eq_ignore_case("NT"@, "Host"@),
        !text::eq_ignore_case("NT"@, "CALLBACK"@),
        !text::eq_ignore_case("NT"@, "TIMEOUT"@),
        !text::eq_ignore_case("NT"@, "SID"@),
        !text::eq_ignore_case("NT"@, "Connection"@),
        !text::eq_ignore_case("TIMEOUT"@, "Host"@),
        !text::eq_ignore_case("TIMEOUT"@, "CALLBACK"@),
        !text::eq_ignore_case("TIMEOUT"@, "NT"@),
        !text::eq_ignore_case("TIMEOUT"@, "SID"@),
        !text::eq_ignore_case("TIMEOUT"@, "Connection"@),
        !text::eq_ignore_case("SID"@, "Host"@),
        !text::eq_ignore_case("SID"@, "CALLBACK"@),
        !text::eq_ignore_case("SID"@, "NT"@),
        !text::eq_ignore_case("SID"@, "TIMEOUT"@),
        !text::eq_ignore_case("SID"@, "Connection"@),
        !text::eq_ignore_case("Connection"@, "Host"@),
        !text::eq_ignore_case("Connection"@, "CALLBACK"@),
        !text::eq_ignore_case("Connection"@, "NT"@),
        !text::eq_ignore_case("Connection"@, "TIMEOUT"@),
        !text::eq_ignore_case("Connection"@, "SID"@),
        !text::eq_ignore_case("Host"@, "Content-Type"@),
        !text::eq_ignore_case("Host"@, "Content-Length"@),
        !text::eq_ignore_case("Host"@, "SOAPAction"@),
        !text::eq_ignore_case("Content-Type"@, "Host"@),
        !text::eq_ignore_case("Content-Type"@, "Content-Length"@),
        !text::eq_ignore_case("Content-Type"@, "SOAPAction"@),
        !text::eq_ignore_case("Content-Type"@, "Connection"@),
        !text::eq_ignore_case("Content-Length"@, "Host"@),
        !text::eq_ignore_case("Content-Length"@, "Content-Type"@),
        !text::eq_ignore_case("Content-Length"@, "SOAPAction"@),
        !text::eq_ignore_case("Content-Length"@, "Connection"@),
        !text::eq_ignore_case("SOAPAction"@, "Host"@),
        !text::eq_ignore_case("SOAPAction"@, "Content-Type"@),
        !text::eq_ignore_case("SOAPAction"@, "Content-Length"@),
        !text::eq_ignore_case("SOAPAction"@, "Connection"@),
        !text::eq_ignore_case("Connection"@, "Content-Type"@),
        !text::eq_ignore_case("Connection"@, "Content-Length"@),
        !text::eq_ignore_case("Connection"@, "SOAPAction"@),
        !text::eq_ignore_case("HOST"@, "MAN"@),
        !text::eq_ignore_case("HOST"@, "MX"@),
        !text::eq_ignore_case("HOST"@, "ST"@),
        !text::eq_ignore_case("MAN"@, "HOST"@),
        !text::eq_ignore_case("MAN"@, "MX"@),
        !text::eq_ignore_case("MAN"@, "ST"@),
        !text::eq_ignore_case("MX"@, "HOST"@),
        !text::eq_ignore_case("MX"@, "MAN"@),
        !text::eq_ignore_case("MX"@, "ST"@),
        !text::eq_ignore_case("ST"@, "HOST"@),
        !text::eq_ignore_case("ST"@, "MAN"@),
        !text::eq_ignore_case("ST"@, "MX"@),
        is_value("Host"@) && !"Host"@.contains(':'),
        is_value("CALLBACK"@) && !"CALLBACK"@.contains(':'),
        is_value("NT"@) && !"NT"@.contains(':'),
        is_value("TIMEOUT"@) && !"TIMEOUT"@.contains(':'),
        is_value("SID"@) && !"SID"@.contains(':'),
        is_value("Connection"@) && !"Connection"@.contains(':'),
        is_value("Content-Type"@) && !"Content-Type"@.contains(':'),
        is_value("Content-Length"@) && !"Content-Length"@.contains(':'),
        is_value("SOAPAction"@) && !"SOAPAction"@.contains(':'),
        is_value("HOST"@) && !"HOST"@.contains(':'),
        is_value("MAN"@) && !"MAN"@.contains(':'),
        is_value("MX"@) && !"MX"@.contains(':'),
        is_value("ST"@) && !"ST"@.contains(':'),
{
    reveal_strlit("Host");
    reveal_strlit("CALLBACK");
    reveal_strlit("NT");
    reveal_strlit("TIMEOUT");
    reveal_strlit("SID");
    reveal_strlit("Connection");
    reveal_strlit("Content-Type");
    reveal_strlit("Content-Length");
    reveal_strlit("SOAPAction");
    reveal_strlit("HOST");
    reveal_strlit("MAN");
    reveal_strlit("MX");
    reveal_strlit("ST");
    assert(text::ascii_lower("SOAPAction"@[0]) != text::ascii_lower("Connection"@[0]));
    assert(text::ascii_lower("MX"@[0]) != text::ascii_lower("ST"@[0]));
}

/// The literals that requests are written with hold the names of headers and what stands around
/// them.
#[verifier::rlimit(60)]
proof fn lemma_literals()
    ensures
        "GET "@ == "GET"@ + " "@,
        " HTTP/1.1\r\nHost: "@ == " HTTP/1.1"@ + "\r\nHost: "@,
        "\r\nHost: "@ == "\r\n"@ + "Host"@ + ": "@,
        "\r\nConnection: close\r\n\r\n"@ == "\r\nConnection: "@ + "close"@ + "\r\n\r\n"@,
        "\r\nConnection: "@ == "\r\n"@ + "Connection"@ + ": "@,
        "\r\nSID: "@ == "\r\n"@ + "SID"@ + ": "@,
        "UNSUBSCRIBE "@ == "UNSUBSCRIBE"@ + " "@,
        "SUBSCRIBE "@ == "SUBSCRIBE"@ + " "@,
        "\r\nTIMEOUT: Second-"@ == "\r\nTIMEOUT: "@ + "Second-"@,
        "\r\nTIMEOUT: "@ == "\r\n"@ + "TIMEOUT"@ + ": "@,
        "\r\nCALLBACK: <http://"@ == "\r\nCALLBACK: "@ + "<http://"@,
        "/>\r\nNT: upnp:event\r\nTIMEOUT: Second-"@
            == "/>"@ + ("\r\nNT: "@ + "upnp:event"@ + "\r\nTIMEOUT: Second-"@),
        "\r\nCALLBACK: "@ == "\r\n"@ + "CALLBACK"@ + ": "@,
        "\r\nNT: "@ == "\r\n"@ + "NT"@ + ": "@,
        "POST "@ == "POST"@ + " "@,
        "\r\nContent-Type: text/xml; charset=\"utf-8\"\r\nContent-Length: "@
            == "\r\nContent-Type: "@ + "text/xml; charset=\"utf-8\""@ + "\r\nContent-Length: "@,
        "\r\nSOAPAction: \""@ == "\r\nSOAPAction: "@ + "\""@,
        "\"\r\nConnection: close\r\n\r\n"@ == "\""@ + "\r\nConnection: close\r\n\r\n"@,
        "\r\nContent-Type: "@ == "\r\n"@ + "Content-Type"@ + ": "@,
        "\r\nContent-Length: "@ == "\r\n"@ + "Content-Length"@ + ": "@,
        "\r\nSOAPAction: "@ == "\r\n"@ + "SOAPAction"@ + ": "@,
        "M-SEARCH * HTTP/1.1\r\nHOST: "@
            == "M-SEARCH"@ + " "@ + "*"@ + " HTTP/1.1"@ + "\r\nHOST: "@,
        "\r\nMAN: \"ssdp:discover\"\r\nMX: "@ == "\r\nMAN: "@ + "\"ssdp:discover\""@ + "\r\nMX: "@,
        "\r\nHOST: "@ == "\r\n"@ + "HOST"@ + ": "@,
        "\r\nMAN: "@ == "\r\n"@ + "MAN"@ + ": "@,
        "\r\nMX: "@ == "\r\n"@ + "MX"@ + ": "@,
        "\r\nST: "@ == "\r\n"@ + "ST"@ + ": "@,
{
    assert("GET "@ == "GET"@ + " "@) by {
        reveal_strlit("GET ");
        reveal_strlit("GET");
        reveal_strlit(" ");
    }
    assert(" HTTP/1.1\r\nHost: "@ == " HTTP/1.1"@ + "\r\nHost: "@) by {
        reveal_strlit(" HTTP/1.1\r\nHost: ");
        reveal_strlit(" HTTP/1.1");
        reveal_strlit("\r\nHost: ");
    }
    assert("\r\nHost: "@ == "\r\n"@ + "Host"@ + ": "@) by {
        reveal_strlit("\r\nHost: ");
        reveal_strlit("\r\n");
        reveal_strlit("Host");
        reveal_strlit(": ");
    }
    assert("\r\nConnection: close\r\n\r\n"@ == "\r\nConnection: "@ + "close"@ + "\r\n\r\n"@) by {
        reveal_strlit("\r\nConnection: close\r\n\r\n");
        reveal_strlit("\r\nConnection: ");
        reveal_strlit("close");
        reveal_strlit("\r\n\r\n");
    }
    assert("\r\nConnection: "@ == "\r\n"@ + "Connection"@ + ": "@) by {
        reveal_strlit("\r\nConnection: ");
        reveal_strlit("\r\n");
        reveal_strlit("Connection");
        reveal_strlit(": ");
    }
    assert("\r\nSID: "@ == "\r\n"@ + "SID"@ + ": "@) by {
        reveal_strlit("\r\nSID: ");
        reveal_strlit("\r\n");
        reveal_strlit("SID");
        reveal_strlit(": ");
    }
    assert("UNSUBSCRIBE "@ == "UNSUBSCRIBE"@ + " "@) by {
        reveal_strlit("UNSUBSCRIBE ");
        reveal_strlit("UNSUBSCRIBE");
        reveal_strlit(" ");
    }
    assert("SUBSCRIBE "@ == "SUBSCRIBE"@ + " "@) by {
        reveal_strlit("SUBSCRIBE ");
        reveal_strlit("SUBSCRIBE");
        reveal_strlit(" ");
    }
    assert("\r\nTIMEOUT: Second-"@ == "\r\nTIMEOUT: "@ + "Second-"@) by {
        reveal_strlit("\r\nTIMEOUT: Second-");
        reveal_strlit("\r\nTIMEOUT: ");
        reveal_strlit("Second-");
    }
    assert("\r\nTIMEOUT: "@ == "\r\n"@ + "TIMEOUT"@ + ": "@) by {
        reveal_strlit("\r\nTIMEOUT: ");
        reveal_strlit("\r\n");
        reveal_strlit("TIMEOUT");
        reveal_strlit(": ");
    }
    assert("\r\nCALLBACK: <http://"@ == "\r\nCALLBACK: "@ + "<http://"@) by {
        reveal_strlit("\r\nCALLBACK: <http://");
        reveal_strlit("\r\nCALLBACK: ");
        reveal_strlit("<http://");
    }
    assert("/>\r\nNT: upnp:event\r\nTIMEOUT: Second-"@
        == "/>"@ + ("\r\nNT: "@ + "upnp:event"@ + "\r\nTIMEOUT: Second-"@)) by {
        reveal_strlit("/>\r\nNT: upnp:event\r\nTIMEOUT: Second-");
        reveal_strlit("/>");
        reveal_strlit("\r\nNT: ");
        reveal_strlit("upnp:event");
        reveal_strlit("\r\nTIMEOUT: Second-");
    }
    assert("\r\nCALLBACK: "@ == "\r\n"@ + "CALLBACK"@ + ": "@) by {
        reveal_strlit("\r\nCALLBACK: ");
        reveal_strlit("\r\n");
        reveal_strlit("CALLBACK");
        reveal_strlit(": ");
    }
    assert("\r\nNT: "@ == "\r\n"@ + "NT"@ + ": "@) by {
        reveal_strlit("\r\nNT: ");
        reveal_strlit("\r\n");
        reveal_strlit("NT");
        reveal_strlit(": ");
    }
    assert("POST "@ == "POST"@ + " "@) by {
        reveal_strlit("POST ");
        reveal_strlit("POST");
        reveal_strlit(" ");
    }
    assert("\r\nContent-Type: text/xml; charset=\"utf-8\"\r\nContent-Length: "@
        == "\r\nContent-Type: "@ + "text/xml; charset=\"utf-8\""@ + "\r\nContent-Length: "@) by {
        reveal_strlit("\r\nContent-Type: text/xml; charset=\"utf-8\"\r\nContent-Length: ");
        reveal_strlit("\r\nContent-Type: ");
        reveal_strlit("text/xml; charset=\"utf-8\"");
        reveal_strlit("\r\nContent-Length: ");
    }
    assert("\r\nSOAPAction: \""@ == "\r\nSOAPAction: "@ + "\""@) by {
        reveal_strlit("\r\nSOAPAction: \"");
        reveal_strlit("\r\nSOAPAction: ");
        reveal_strlit("\"");
    }
    assert("\"\r\nConnection: close\r\n\r\n"@ == "\""@ + "\r\nConnection: close\r\n\r\n"@) by {
        reveal_strlit("\"\r\nConnection: close\r\n\r\n");
        reveal_strlit("\"");
        reveal_strlit("\r\nConnection: close\r\n\r\n");
    }
    assert("\r\nContent-Type: "@ == "\r\n"@ + "Content-Type"@ + ": "@) by {
        reveal_strlit("\r\nContent-Type: ");
        reveal_strlit("\r\n");
        reveal_strlit("Content-Type");
        reveal_strlit(": ");
    }
    assert("\r\nContent-Length: "@ == "\r\n"@ + "Content-Length"@ + ": "@) by {
        reveal_strlit("\r\nContent-Length: ");
        reveal_strlit("\r\n");
        reveal_strlit("Content-Length");
        reveal_strlit(": ");
    }
    assert("\r\nSOAPAction: "@ == "\r\n"@ + "SOAPAction"@ + ": "@) by {
        reveal_strlit("\r\nSOAPAction: ");
        reveal_strlit("\r\n");
        reveal_strlit("SOAPAction");
        reveal_strlit(": ");
    }
    assert("M-SEARCH * HTTP/1.1\r\nHOST: "@
        == "M-SEARCH"@ + " "@ + "*"@ + " HTTP/1.1"@ + "\r\nHOST: "@) by {
        reveal_strlit("M-SEARCH * HTTP/1.1\r\nHOST: ");
        reveal_strlit("M-SEARCH");
        reveal_strlit(" ");
        reveal_strlit("*");
        reveal_strlit(" HTTP/1.1");
        reveal_strlit("\r\nHOST: ");
    }
    assert("\r\nMAN: \"ssdp:discover\"\r\nMX: "@
        == "\r\nMAN: "@ + "\"ssdp:discover\""@ + "\r\nMX: "@) by {
        reveal_strlit("\r\nMAN: \"ssdp:discover\"\r\nMX: ");
        reveal_strlit("\r\nMAN: ");
        reveal_strlit("\"ssdp:discover\"");
        reveal_strlit("\r\nMX: ");
    }
    assert("\r\nHOST: "@ == "\r\n"@ + "HOST"@ + ": "@) by {
        reveal_strlit("\r\nHOST: ");
        reveal_strlit("\r\n");
        reveal_strlit("HOST");
        reveal_strlit(": ");
    }
    assert("\r\nMAN: "@ == "\r\n"@ + "MAN"@ + ": "@) by {
        reveal_strlit("\r\nMAN: ");
        reveal_strlit("\r\n");
        reveal_strlit("MAN");
        reveal_strlit(": ");
    }
    assert("\r\nMX: "@ == "\r\n"@ + "MX"@ + ": "@) by {
        reveal_strlit("\r\nMX: ");
        reveal_strlit("\r\n");
        reveal_strlit("MX");
        reveal_strlit(": ");
    }
    assert("\r\nST: "@ == "\r\n"@ + "ST"@ + ": "@) by {
        reveal_strlit("\r\nST: ");
        reveal_strlit("\r\n");
        reveal_strlit("ST");
        reveal_strlit(": ");
    }
}

/// A description is fetched from the path and the host of its location.
pub proof fn law_fetches_are_read(path: Seq<char>, host: Seq<char>)
    requires
        is_word(path),
        is_value(host),
    ensures
        ({
            let request = location::fetch_text(path, host);
            &&& requests(request, "GET"@, path)
            &&& given(request, "Host"@) == Some(host)
            &&& given(request, "Connection"@) == Some("close"@)
            &&& ends_head(request)
        }),
{
    let request = location::fetch_text(path, host);
    lemma_literals();
    lemma_word(path);
    assert(is_word("GET"@)) by {
        reveal_strlit("GET");
    }
    let first = "GET"@ + " "@ + path + " HTTP/1.1"@;
    let f0 = Seq::<(Seq<char>, Seq<char>)>::empty();
    let v0 = host;
    lemma_associative("GET"@ + " "@ + path, " HTTP/1.1"@, "\r\nHost: "@);
    let f1 = f0.push(("Host"@, v0));
    lemma_field(first, f0, "\r\nHost: "@, "Host"@, v0);
    let v1 = "close"@;
    assert(is_value(v1)) by {
        reveal_strlit("close");
    }
    let f2 = f1.push(("Connection"@, v1));
    lemma_field(first, f1, "\r\nConnection: "@, "Connection"@, v1);
    lemma_associative(head(first, f1), "\r\nConnection: "@ + "close"@, "\r\n\r\n"@);
    lemma_associative(head(first, f1), "\r\nConnection: "@, "close"@);
    let fields = f2;
    assert(are_headers(fields)) by {
        lemma_names();
        assert(fields =~= seq![("Host"@, v0), ("Connection"@, v1)]);
    }
    lemma_request("GET"@, path, fields, Seq::<char>::empty());
    assert(fields[0] == ("Host"@, v0));
    assert(fields[1] == ("Connection"@, v1));
    lemma_ends_head(head(first, fields));
    lemma_end(head(first, fields) + "\r\n\r\n"@);
}

/// A cancellation names the subscription to cancel, and nothing else.
pub proof fn law_cancellations_are_read(path: Seq<char>, host: Seq<char>, sid: Seq<char>)
    requires
        is_word(path),
        is_value(host),
        is_value(sid),
    ensures
        ({
            let request = subscription::unsubscribe_text(path, host, sid);
            &&& requests(request, "UNSUBSCRIBE"@, path)
            &&& given(request, "Host"@) == Some(host)
            &&& given(request, "SID"@) == Some(sid)
            &&& given(request, "Connection"@) == Some("close"@)
            &&& given(request, "CALLBACK"@) is None
            &&& given(request, "NT"@) is None
            &&& given(request, "TIMEOUT"@) is None
            &&& ends_head(request)
        }),
{
    let request = subscription::unsubscribe_text(path, host, sid);
    lemma_literals();
    lemma_word(path);
    assert(is_word("UNSUBSCRIBE"@)) by {
        reveal_strlit("UNSUBSCRIBE");
    }
    let first = "UNSUBSCRIBE"@ + " "@ + path + " HTTP/1.1"@;
    let f0 = Seq::<(Seq<char>, Seq<char>)>::empty();
    let v0 = host;
    lemma_associative("UNSUBSCRIBE"@ + " "@ + path, " HTTP/1.1"@, "\r\nHost: "@);
    let f1 = f0.push(("Host"@, v0));
    lemma_field(first, f0, "\r\nHost: "@, "Host"@, v0);
    let v1 = sid;
    let f2 = f1.push(("SID"@, v1));
    lemma_field(first, f1, "\r\nSID: "@, "SID"@, v1);
    let v2 = "close"@;
    assert(is_value(v2)) by {
        reveal_strlit("close");
    }
    let f3 = f2.push(("Connection"@, v2));
    lemma_field(first, f2, "\r\nConnection: "@, "Connection"@, v2);
    lemma_associative(head(first, f2), "\r\nConnection: "@ + "close"@, "\r\n\r\n"@);
    lemma_associative(head(first, f2), "\r\nConnection: "@, "close"@);
    let fields = f3;
    assert(are_headers(fields)) by {
        lemma_names();
        assert(fields =~= seq![("Host"@, v0), ("SID"@, v1), ("Connection"@, v2)]);
    }
    lemma_request("UNSUBSCRIBE"@, path, fields, Seq::<char>::empty());
    assert(fields[0] == ("Host"@, v0));
    assert(fields[1] == ("SID"@, v1));
    assert(fields[2] == ("Connection"@, v2));
    lemma_ends_head(head(first, fields));
    lemma_end(head(first, fields) + "\r\n\r\n"@);
    lemma_names();
}

/// A renewal names the subscription to renew, and asks for another half an hour. It gives neither
/// an address to deliver events to nor a kind of events: those would make it a new subscription.
#[verifier::rlimit(60)]
pub proof fn law_renewals_are_read(path: Seq<char>, host: Seq<char>, sid: Seq<char>)
    requires
        is_word(path),
        is_value(host),
        is_value(sid),
    ensures
        ({
            let request = subscription::renew_text(path, host, sid);
            &&& requests(request, "SUBSCRIBE"@, path)
            &&& given(request, "Host"@) == Some(host)
            &&& given(request, "SID"@) == Some(sid)
            &&& given(request, "TIMEOUT"@) == Some("Second-"@ + text::decimal(1800))
            &&& given(request, "Connection"@) == Some("close"@)
            &&& given(request, "CALLBACK"@) is None
            &&& given(request, "NT"@) is None
            &&& ends_head(request)
        }),
{
    let request = subscription::renew_text(path, host, sid);
    lemma_literals();
    lemma_word(path);
    assert(is_word("SUBSCRIBE"@)) by {
        reveal_strlit("SUBSCRIBE");
    }
    let first = "SUBSCRIBE"@ + " "@ + path + " HTTP/1.1"@;
    let f0 = Seq::<(Seq<char>, Seq<char>)>::empty();
    let v0 = host;
    lemma_associative("SUBSCRIBE"@ + " "@ + path, " HTTP/1.1"@, "\r\nHost: "@);
    let f1 = f0.push(("Host"@, v0));
    lemma_field(first, f0, "\r\nHost: "@, "Host"@, v0);
    let v1 = sid;
    let f2 = f1.push(("SID"@, v1));
    lemma_field(first, f1, "\r\nSID: "@, "SID"@, v1);
    let seconds = text::decimal(1800);
    let v2 = "Second-"@ + seconds;
    assert(is_value(v2)) by {
        reveal_strlit("Second-");
        lemma_number(1800);
        lemma_one_line("Second-"@, seconds);
    }
    let f3 = f2.push(("TIMEOUT"@, v2));
    lemma_field(first, f2, "\r\nTIMEOUT: "@, "TIMEOUT"@, v2);
    lemma_associative(head(first, f2), "\r\nTIMEOUT: "@, "Second-"@);
    lemma_associative(head(first, f2) + "\r\nTIMEOUT: "@, "Second-"@, seconds);
    let v3 = "close"@;
    assert(is_value(v3)) by {
        reveal_strlit("close");
    }
    let f4 = f3.push(("Connection"@, v3));
    lemma_field(first, f3, "\r\nConnection: "@, "Connection"@, v3);
    lemma_associative(head(first, f3), "\r\nConnection: "@ + "close"@, "\r\n\r\n"@);
    lemma_associative(head(first, f3), "\r\nConnection: "@, "close"@);
    let fields = f4;
    assert(are_headers(fields)) by {
        lemma_names();
        assert(fields =~= seq![("Host"@, v0), ("SID"@, v1), ("TIMEOUT"@, v2), ("Connection"@, v3)]);
    }
    lemma_request("SUBSCRIBE"@, path, fields, Seq::<char>::empty());
    assert(fields[0] == ("Host"@, v0));
    assert(fields[1] == ("SID"@, v1));
    assert(fields[2] == ("TIMEOUT"@, v2));
    assert(fields[3] == ("Connection"@, v3));
    lemma_ends_head(head(first, fields));
    lemma_end(head(first, fields) + "\r\n\r\n"@);
    lemma_names();
}

/// A subscription names the address to deliver events to, and asks for the state change events of
/// the service for half an hour. It does not name an earlier subscription.
#[verifier::rlimit(60)]
pub proof fn law_subscriptions_are_read(path: Seq<char>, host: Seq<char>, callback: Seq<char>)
    requires
        is_word(path),
        is_value(host),
        !callback.contains('\n'),
    ensures
        ({
            let request = subscription::subscribe_text(path, host, callback);
            &&& requests(request, "SUBSCRIBE"@, path)
            &&& given(request, "Host"@) == Some(host)
            &&& given(request, "CALLBACK"@) == Some("<http://"@ + callback + "/>"@)
            &&& given(request, "NT"@) == Some("upnp:event"@)
            &&& given(request, "TIMEOUT"@) == Some("Second-"@ + text::decimal(1800))
            &&& given(request, "Connection"@) == Some("close"@)
            &&& given(request, "SID"@) is None
            &&& ends_head(request)
        }),
{
    let request = subscription::subscribe_text(path, host, callback);
    lemma_literals();
    lemma_word(path);
    assert(is_word("SUBSCRIBE"@)) by {
        reveal_strlit("SUBSCRIBE");
    }
    let first = "SUBSCRIBE"@ + " "@ + path + " HTTP/1.1"@;
    let f0 = Seq::<(Seq<char>, Seq<char>)>::empty();
    let v0 = host;
    lemma_associative("SUBSCRIBE"@ + " "@ + path, " HTTP/1.1"@, "\r\nHost: "@);
    let f1 = f0.push(("Host"@, v0));
    lemma_field(first, f0, "\r\nHost: "@, "Host"@, v0);
    let v1 = "<http://"@ + callback + "/>"@;
    assert(is_value(v1)) by {
        reveal_strlit("<http://");
        reveal_strlit("/>");
        lemma_one_line("<http://"@, callback);
        lemma_one_line("<http://"@ + callback, "/>"@);
    }
    let f2 = f1.push(("CALLBACK"@, v1));
    lemma_field(first, f1, "\r\nCALLBACK: "@, "CALLBACK"@, v1);
    let v2 = "upnp:event"@;
    assert(is_value(v2)) by {
        reveal_strlit("upnp:event");
    }
    let f3 = f2.push(("NT"@, v2));
    lemma_field(first, f2, "\r\nNT: "@, "NT"@, v2);
    lemma_associative(head(first, f1), "\r\nCALLBACK: "@, "<http://"@);
    lemma_associative(
        head(first, f1) + "\r\nCALLBACK: "@ + "<http://"@ + callback,
        "/>"@,
        "\r\nNT: "@ + "upnp:event"@ + "\r\nTIMEOUT: Second-"@,
    );
    lemma_associative(head(first, f1) + "\r\nCALLBACK: "@, "<http://"@, callback);
    lemma_associative(head(first, f1) + "\r\nCALLBACK: "@, "<http://"@ + callback, "/>"@);
    lemma_associative(head(first, f2), "\r\nNT: "@ + "upnp:event"@, "\r\nTIMEOUT: Second-"@);
    lemma_associative(head(first, f2), "\r\nNT: "@, "upnp:event"@);
    let seconds = text::decimal(1800);
    let v3 = "Second-"@ + seconds;
    assert(is_value(v3)) by {
        reveal_strlit("Second-");
        lemma_number(1800);
        lemma_one_line("Second-"@, seconds);
    }
    let f4 = f3.push(("TIMEOUT"@, v3));
    lemma_field(first, f3, "\r\nTIMEOUT: "@, "TIMEOUT"@, v3);
    lemma_associative(head(first, f3), "\r\nTIMEOUT: "@, "Second-"@);
    lemma_associative(head(first, f3) + "\r\nTIMEOUT: "@, "Second-"@, seconds);
    let v4 = "close"@;
    assert(is_value(v4)) by {
        reveal_strlit("close");
    }
    let f5 = f4.push(("Connection"@, v4));
    lemma_field(first, f4, "\r\nConnection: "@, "Connection"@, v4);
    lemma_associative(head(first, f4), "\r\nConnection: "@ + "close"@, "\r\n\r\n"@);
    lemma_associative(head(first, f4), "\r\nConnection: "@, "close"@);
    let fields = f5;
    assert(are_headers(fields)) by {
        lemma_names();
        assert(fields =~= seq![
            ("Host"@, v0),
            ("CALLBACK"@, v1),
            ("NT"@, v2),
            ("TIMEOUT"@, v3),
            ("Connection"@, v4),
        ]);
    }
    lemma_request("SUBSCRIBE"@, path, fields, Seq::<char>::empty());
    assert(fields[0] == ("Host"@, v0));
    assert(fields[1] == ("CALLBACK"@, v1));
    assert(fields[2] == ("NT"@, v2));
    assert(fields[3] == ("TIMEOUT"@, v3));
    assert(fields[4] == ("Connection"@, v4));
    lemma_ends_head(head(first, fields));
    lemma_end(head(first, fields) + "\r\n\r\n"@);
    lemma_names();
}

/// A request to a service names the action and the type of the service, says how many bytes its
/// body has, and holds the envelope as its body.
#[verifier::rlimit(60)]
pub proof fn law_actions_are_read(
    path: Seq<char>,
    host: Seq<char>,
    service_type: Seq<char>,
    action: Seq<char>,
    envelope: Seq<char>,
)
    requires
        is_word(path),
        is_value(host),
        !service_type.contains('\n'),
        !action.contains('\n'),
    ensures
        ({
            let request = soap::soap_text(path, host, service_type, action, envelope);
            &&& requests(request, "POST"@, path)
            &&& given(request, "Host"@) == Some(host)
            &&& given(request, "Content-Type"@) == Some("text/xml; charset=\"utf-8\""@)
            &&& given(request, "Content-Length"@) == Some(
                text::decimal(encode_utf8(envelope).len()),
            )
            &&& given(request, "SOAPAction"@) == Some("\""@ + service_type + "#"@ + action + "\""@)
            &&& given(request, "Connection"@) == Some("close"@)
            &&& exists|head: Seq<char>| ends_head(head) && request == #[trigger] (head + envelope)
        }),
{
    let request = soap::soap_text(path, host, service_type, action, envelope);
    lemma_literals();
    lemma_word(path);
    assert(is_word("POST"@)) by {
        reveal_strlit("POST");
    }
    let first = "POST"@ + " "@ + path + " HTTP/1.1"@;
    let f0 = Seq::<(Seq<char>, Seq<char>)>::empty();
    let v0 = host;
    lemma_associative("POST"@ + " "@ + path, " HTTP/1.1"@, "\r\nHost: "@);
    let f1 = f0.push(("Host"@, v0));
    lemma_field(first, f0, "\r\nHost: "@, "Host"@, v0);
    let v1 = "text/xml; charset=\"utf-8\""@;
    assert(is_value(v1)) by {
        reveal_strlit("text/xml; charset=\"utf-8\"");
    }
    let f2 = f1.push(("Content-Type"@, v1));
    lemma_field(first, f1, "\r\nContent-Type: "@, "Content-Type"@, v1);
    let v2 = text::decimal(encode_utf8(envelope).len());
    lemma_number(encode_utf8(envelope).len());
    let f3 = f2.push(("Content-Length"@, v2));
    lemma_field(first, f2, "\r\nContent-Length: "@, "Content-Length"@, v2);
    lemma_associative(
        head(first, f1),
        "\r\nContent-Type: "@ + "text/xml; charset=\"utf-8\""@,
        "\r\nContent-Length: "@,
    );
    lemma_associative(head(first, f1), "\r\nContent-Type: "@, "text/xml; charset=\"utf-8\""@);
    let v3 = "\""@ + service_type + "#"@ + action + "\""@;
    assert(is_value(v3)) by {
        reveal_strlit("\"");
        reveal_strlit("#");
        lemma_one_line("\""@, service_type);
        lemma_one_line("\""@ + service_type, "#"@);
        lemma_one_line("\""@ + service_type + "#"@, action);
        lemma_one_line("\""@ + service_type + "#"@ + action, "\""@);
    }
    let f4 = f3.push(("SOAPAction"@, v3));
    lemma_field(first, f3, "\r\nSOAPAction: "@, "SOAPAction"@, v3);
    lemma_associative(head(first, f3), "\r\nSOAPAction: "@, "\""@);
    lemma_associative(
        head(first, f3) + "\r\nSOAPAction: "@ + "\""@ + service_type + "#"@ + action,
        "\""@,
        "\r\nConnection: close\r\n\r\n"@,
    );
    lemma_associative(head(first, f3) + "\r\nSOAPAction: "@, "\""@, service_type);
    lemma_associative(head(first, f3) + "\r\nSOAPAction: "@, "\""@ + service_type, "#"@);
    lemma_associative(head(first, f3) + "\r\nSOAPAction: "@, "\""@ + service_type + "#"@, action);
    lemma_associative(
        head(first, f3) + "\r\nSOAPAction: "@,
        "\""@ + service_type + "#"@ + action,
        "\""@,
    );
    let v4 = "close"@;
    assert(is_value(v4)) by {
        reveal_strlit("close");
    }
    let f5 = f4.push(("Connection"@, v4));
    lemma_field(first, f4, "\r\nConnection: "@, "Connection"@, v4);
    lemma_associative(head(first, f4), "\r\nConnection: "@ + "close"@, "\r\n\r\n"@);
    lemma_associative(head(first, f4), "\r\nConnection: "@, "close"@);
    let fields = f5;
    assert(are_headers(fields)) by {
        lemma_names();
        assert(fields =~= seq![
            ("Host"@, v0),
            ("Content-Type"@, v1),
            ("Content-Length"@, v2),
            ("SOAPAction"@, v3),
            ("Connection"@, v4),
        ]);
    }
    lemma_request("POST"@, path, fields, envelope);
    assert(fields[0] == ("Host"@, v0));
    assert(fields[1] == ("Content-Type"@, v1));
    assert(fields[2] == ("Content-Length"@, v2));
    assert(fields[3] == ("SOAPAction"@, v3));
    assert(fields[4] == ("Connection"@, v4));
    lemma_ends_head(head(first, fields));
    assert(request == head(first, fields) + "\r\n\r\n"@ + envelope);
}

/// A search names the target searched for, the multicast group of the gateway's address family with
/// the port of the discovery, and how long devices may take to respond.
#[verifier::rlimit(60)]
pub proof fn law_searches_are_read(gateway: GatewayAddress, target: Seq<char>)
    requires
        is_value(target),
    ensures
        ({
            let request = search::search_text(gateway, target);
            &&& requests(request, "M-SEARCH"@, "*"@)
            &&& given(request, "HOST"@) == Some((match gateway {
                GatewayAddress::IpV4(_) => "239.255.255.250"@,
                GatewayAddress::IpV6(_, _) => "[ff02::c]"@,
            }) + ":"@ + text::decimal(1900))
            &&& given(request, "MAN"@) == Some("\"ssdp:discover\""@)
            &&& given(request, "MX"@) == Some(text::decimal(2))
            &&& given(request, "ST"@) == Some(target)
            &&& ends_head(request)
        }),
{
    let request = search::search_text(gateway, target);
    lemma_literals();
    let group = search::multicast_host(gateway);
    let port = text::decimal(1900);
    assert(is_word("M-SEARCH"@) && is_word("*"@)) by {
        reveal_strlit("M-SEARCH");
        reveal_strlit("*");
    }
    let first = "M-SEARCH"@ + " "@ + "*"@ + " HTTP/1.1"@;
    let f0 = Seq::<(Seq<char>, Seq<char>)>::empty();
    let v0 = group + ":"@ + port;
    assert(is_value(v0)) by {
        reveal_strlit("239.255.255.250");
        reveal_strlit("[ff02::c]");
        reveal_strlit(":");
        lemma_number(1900);
        lemma_one_line(group, ":"@);
        lemma_one_line(group + ":"@, port);
    }
    let f1 = f0.push(("HOST"@, v0));
    lemma_field(first, f0, "\r\nHOST: "@, "HOST"@, v0);
    lemma_associative(first + "\r\nHOST: "@, group, ":"@);
    lemma_associative(first + "\r\nHOST: "@, group + ":"@, port);
    let v1 = "\"ssdp:discover\""@;
    assert(is_value(v1)) by {
        reveal_strlit("\"ssdp:discover\"");
    }
    let f2 = f1.push(("MAN"@, v1));
    lemma_field(first, f1, "\r\nMAN: "@, "MAN"@, v1);
    let v2 = text::decimal(2);
    lemma_number(2);
    let f3 = f2.push(("MX"@, v2));
    lemma_field(first, f2, "\r\nMX: "@, "MX"@, v2);
    lemma_associative(head(first, f1), "\r\nMAN: "@ + "\"ssdp:discover\""@, "\r\nMX: "@);
    lemma_associative(head(first, f1), "\r\nMAN: "@, "\"ssdp:discover\""@);
    let v3 = target;
    let f4 = f3.push(("ST"@, v3));
    lemma_field(first, f3, "\r\nST: "@, "ST"@, v3);
    let fields = f4;
    assert(are_headers(fields)) by {
        lemma_names();
        assert(fields =~= seq![("HOST"@, v0), ("MAN"@, v1), ("MX"@, v2), ("ST"@, v3)]);
    }
    lemma_request("M-SEARCH"@, "*"@, fields, Seq::<char>::empty());
    assert(fields[0] == ("HOST"@, v0));
    assert(fields[1] == ("MAN"@, v1));
    assert(fields[2] == ("MX"@, v2));
    assert(fields[3] == ("ST"@, v3));
    lemma_ends_head(head(first, fields));
    lemma_end(head(first, fields) + "\r\n\r\n"@);
}

} // verus!
