//! The plain HTTP URLs that gateways announce.

use vstd::prelude::*;
use vstd::string::*;

use crate::address;
use crate::address::{socket_address, GatewayAddress, SocketAddr};
use crate::scan;
use crate::scan::{chars_of, first_position, last_position, span_eq_ignore_case, span_number};
use crate::text;
use crate::text::Span;
use crate::upnp::failure::InvalidResponseKind;

verus! {

/// The standard HTTP port.
pub const HTTP_PORT: u16 = 80;

/// What follows the scheme of a plain HTTP URL.
pub open spec fn after_scheme(url: Seq<char>) -> Option<Seq<char>> {
    if url.len() >= 7 && text::eq_ignore_case(url.take(7), "http://"@) {
        Some(url.skip(7))
    } else {
        None
    }
}

/// The authority and the path of a plain HTTP URL. The path defaults to the root.
pub open spec fn split_url(url: Seq<char>) -> Option<(Seq<char>, Seq<char>)> {
    match after_scheme(url) {
        Some(rest) => {
            let (authority, path) = match text::first_index(rest, '/') {
                Some(i) => (rest.take(i), rest.skip(i)),
                None => (rest, "/"@),
            };
            if authority.len() > 0 {
                Some((authority, path))
            } else {
                None
            }
        },
        None => None,
    }
}

/// Strip the scheme from a plain HTTP URL; device descriptions are served over HTTP on the local network.
pub fn strip_http_scheme(url: &str) -> (rest: Option<&str>)
    ensures
        match rest {
            Some(r) => after_scheme(url@) == Some(r@),
            None => after_scheme(url@) is None,
        },
{
    let chars = chars_of(url);
    let length: usize = chars.len();
    if length < 7 {
        return None;
    }
    let scheme = Span { start: 0, end: 7 };
    assert(scheme.of(url@) =~= url@.take(7));
    if span_eq_ignore_case(chars.as_slice(), scheme, "http://") {
        assert(url@.skip(7) =~= url@.subrange(7, length as int));
        Some(url.substring_char(7, length))
    } else {
        None
    }
}

/// Split an HTTP URL into its authority (`host[:port]`) and path.
pub fn split_http_url(url: &str) -> (parts: Result<(&str, &str), InvalidResponseKind>)
    ensures
        match parts {
            Ok((authority, path)) => split_url(url@) == Some((authority@, path@)),
            Err(e) => split_url(url@) is None && (e matches InvalidResponseKind::InvalidUrl(u)
                && u@ == url@),
        },
{
    let rest = match strip_http_scheme(url) {
        Some(rest) => rest,
        None => {
            return Err(InvalidResponseKind::InvalidUrl(url.to_owned()));
        },
    };

    // Split the remainder into the authority and an absolute path, defaulting to the root.
    let chars = chars_of(rest);
    let length: usize = chars.len();
    let all = scan::whole(chars.as_slice());
    let (authority, path): (&str, &str) = match first_position(chars.as_slice(), all, '/') {
        Some(i) => {
            assert(rest@.take(i as int) =~= rest@.subrange(0, i as int));
            assert(rest@.skip(i as int) =~= rest@.subrange(i as int, length as int));
            (rest.substring_char(0, i), rest.substring_char(i, length))
        },
        None => (rest, "/"),
    };
    if authority.is_empty() {
        return Err(InvalidResponseKind::InvalidUrl(url.to_owned()));
    }
    Ok((authority, path))
}

/// A split URL has a non-empty authority without a slash and a path that begins with a slash.
/// Put together, they are what follows the scheme, save for a path that was left out.
pub proof fn law_split_url(url: Seq<char>)
    requires
        split_url(url) is Some,
    ensures
        ({
            let (authority, path) = split_url(url).unwrap();
            &&& authority.len() > 0
            &&& !authority.contains('/')
            &&& path.len() > 0
            &&& path[0] == '/'
            &&& (authority + path == url.skip(7) || (authority == url.skip(7) && path == "/"@))
        }),
{
    let rest = after_scheme(url).unwrap();
    text::lemma_first_index(rest, '/');
    reveal_strlit("/");
    let (authority, path) = split_url(url).unwrap();
    if let Some(i) = text::first_index(rest, '/') {
        assert(authority + path =~= rest);
    }
}

/// The text of the port in the authority of a URL. Bracketed IPv6 hosts carry their port after
/// the closing bracket; a bare IPv6 literal has no port.
pub open spec fn port_text(authority: Seq<char>) -> Option<Seq<char>> {
    match text::first_index(authority, ']') {
        Some(end) => {
            let rest = authority.skip(end + 1);
            if rest.len() > 0 && rest[0] == ':' {
                Some(rest.skip(1))
            } else {
                None
            }
        },
        None => match text::last_index(authority, ':') {
            Some(i) => if authority.take(i).contains(':') {
                None
            } else {
                Some(authority.skip(i + 1))
            },
            None => None,
        },
    }
}

/// The port of the authority of a URL, the standard HTTP port unless it carries one.
pub open spec fn port_of(authority: Seq<char>) -> Option<nat> {
    match port_text(authority) {
        Some(port) => text::parse_unsigned(port, 10, u16::MAX as nat),
        None => Some(HTTP_PORT as nat),
    }
}

/// Finds the text of the port in the authority of a URL.
fn find_port(chars: &[char]) -> (port: Option<Span>)
    ensures
        match port {
            Some(p) => p.within(chars@.len()) && port_text(chars@) == Some(p.of(chars@)),
            None => port_text(chars@) is None,
        },
{
    let all = scan::whole(chars);
    match first_position(chars, all, ']') {
        Some(end) => {
            let ghost rest = chars@.skip(end + 1);
            if end + 1 < chars.len() && chars[end + 1] == ':' {
                let port = Span { start: end + 2, end: all.end };
                assert(rest[0] == ':');
                assert(rest.skip(1) =~= port.of(chars@));
                Some(port)
            } else {
                None
            }
        },
        None => match last_position(chars, all, ':') {
            Some(i) => {
                let host = Span { start: 0, end: i };
                let port = Span { start: i + 1, end: all.end };
                proof {
                    assert(host.of(chars@) =~= chars@.take(i as int));
                    assert(port.of(chars@) =~= chars@.skip(i + 1));
                    text::lemma_first_index(host.of(chars@), ':');
                }
                match first_position(chars, host, ':') {
                    Some(k) => {
                        assert(host.of(chars@)[k as int] == ':');
                        None
                    },
                    None => Some(port),
                }
            },
            None => None,
        },
    }
}

/// Extract the port of an HTTP URL authority, defaulting to the standard HTTP port.
pub fn authority_port(authority: &str) -> (port: Result<u16, InvalidResponseKind>)
    ensures
        match port {
            Ok(p) => port_of(authority@) == Some(p as nat),
            Err(e) => port_of(authority@) is None && (e matches InvalidResponseKind::InvalidUrl(u)
                && u@ == authority@),
        },
{
    let chars = chars_of(authority);
    match find_port(chars.as_slice()) {
        Some(span) => match span_number(chars.as_slice(), span, 10, u16::MAX as u64) {
            Some(n) => Ok(n as u16),
            None => Err(InvalidResponseKind::InvalidUrl(authority.to_owned())),
        },
        None => Ok(HTTP_PORT),
    }
}

/// The socket address to reach the authority of a URL announced by the gateway.
/// Always addresses the gateway itself: some gateways announce URLs naming one of their other,
/// possibly unreachable, addresses, so only the port of the authority is used.
pub fn repoint_at_gateway(gateway: GatewayAddress, authority: &str) -> (address: Result<
    SocketAddr,
    InvalidResponseKind,
>)
    ensures
        match address {
            Ok(a) => {
                &&& port_of(authority@) == Some(a.spec_port() as nat)
                &&& a == address::gateway_socket(gateway, a.spec_port())
                &&& a.spec_ip() == gateway.spec_ip()
            },
            Err(e) => port_of(authority@) is None && (e matches InvalidResponseKind::InvalidUrl(u)
                && u@ == authority@),
        },
{
    match authority_port(authority) {
        Ok(port) => Ok(socket_address(gateway, port)),
        Err(e) => Err(e),
    }
}

/// The directory of a path: everything up to and including its last slash.
pub open spec fn directory(path: Seq<char>) -> Seq<char> {
    match text::last_index(path, '/') {
        Some(i) => path.take(i + 1),
        None => path.take(1),
    }
}

/// Whether a path has a directory. A path without a slash stands for its first character, which
/// must be a single byte.
pub open spec fn has_directory(path: Seq<char>) -> bool {
    path.contains('/') || (path.len() > 0 && (path[0] as u32) < 128)
}

/// The authority and path of a possibly relative URL, resolved against a base.
pub open spec fn resolve_url(
    url: Seq<char>,
    base: Option<Seq<char>>,
    location_authority: Seq<char>,
    location_path: Seq<char>,
) -> Option<(Seq<char>, Seq<char>)> {
    if after_scheme(url) is Some {
        split_url(url)
    } else {
        let resolved_base = match base {
            Some(b) => split_url(b),
            None => Some((location_authority, location_path)),
        };
        match resolved_base {
            Some((authority, path)) => Some(
                (
                    authority,
                    if url.len() > 0 && url[0] == '/' {
                        url
                    } else {
                        directory(path) + url
                    },
                ),
            ),
            None => None,
        }
    }
}

/// The URL that a failed resolution is blamed on.
pub open spec fn unresolved_url(url: Seq<char>, base: Option<Seq<char>>) -> Seq<char> {
    if after_scheme(url) is Some {
        url
    } else {
        base.unwrap_or(url)
    }
}

/// Resolve a possibly relative control URL against the URL of the device description,
/// or the legacy `URLBase` element if one was given.
/// Returns the authority and path of the control URL.
pub fn resolve_control_url(
    control_url: &str,
    url_base: Option<&str>,
    location_authority: &str,
    location_path: &str,
) -> (resolved: Result<(String, String), InvalidResponseKind>)
    requires
        url_base is None && after_scheme(control_url@) is None && !text::matches_at(
            control_url@,
            0,
            "/"@,
        ) ==> has_directory(location_path@),
    ensures
        ({
            let base = match url_base {
                Some(b) => Some(b@),
                None => None,
            };
            match resolved {
                Ok((authority, path)) => resolve_url(
                    control_url@,
                    base,
                    location_authority@,
                    location_path@,
                ) == Some((authority@, path@)),
                Err(e) => {
                    &&& resolve_url(control_url@, base, location_authority@, location_path@) is None
                    &&& e matches InvalidResponseKind::InvalidUrl(u) && u@ == unresolved_url(
                        control_url@,
                        base,
                    )
                },
            }
        }),
{
    // An absolute URL requires no resolution.
    if strip_http_scheme(control_url).is_some() {
        return match split_http_url(control_url) {
            Ok((authority, path)) => Ok((authority.to_owned(), path.to_owned())),
            Err(e) => Err(e),
        };
    }

    // Resolve against the `URLBase` if given, otherwise the location of the device description.
    let (base_authority, base_path): (&str, &str) = match url_base {
        Some(base) => match split_http_url(base) {
            Ok(parts) => parts,
            Err(e) => {
                return Err(e);
            },
        },
        None => (location_authority, location_path),
    };

    // An absolute path replaces the base path entirely, a relative path replaces its last segment.
    // Base paths always begin with a `/` by construction in `split_http_url`.
    let control_chars = chars_of(control_url);
    let path: String = if control_chars.len() > 0 && control_chars[0] == '/' {
        control_url.to_owned()
    } else {
        let base_chars = chars_of(base_path);
        proof {
            reveal_strlit("/");
            assert(!text::matches_at(control_url@, 0, "/"@)) by {
                if control_url@.len() > 0 {
                    assert(control_url@.subrange(0, 1)[0] == control_url@[0]);
                }
            }
            if let Some(base) = url_base {
                law_split_url(base@);
                assert(base_path@.contains(base_path@[0]));
            }
            text::lemma_last_index(base_path@, '/');
            assert(base_path@.len() > 0);
        }
        let all = scan::whole(base_chars.as_slice());
        let end: usize = match last_position(base_chars.as_slice(), all, '/') {
            Some(i) => i + 1,
            None => 1,
        };
        assert(base_path@.subrange(0, end as int) =~= base_path@.take(end as int));
        let mut path = base_path.substring_char(0, end).to_owned();
        path.append(control_url);
        path
    };
    Ok((base_authority.to_owned(), path))
}

/// A URL resolved against an absolute path has an absolute path.
pub proof fn law_resolved_path_is_absolute(
    url: Seq<char>,
    base: Option<Seq<char>>,
    location_authority: Seq<char>,
    location_path: Seq<char>,
)
    requires
        location_path.len() > 0,
        location_path[0] == '/',
        resolve_url(url, base, location_authority, location_path) is Some,
    ensures
        ({
            let path = resolve_url(url, base, location_authority, location_path).unwrap().1;
            path.len() > 0 && path[0] == '/'
        }),
{
    if after_scheme(url) is Some {
        law_split_url(url);
    } else {
        let path = match base {
            Some(b) => {
                law_split_url(b);
                split_url(b).unwrap().1
            },
            None => location_path,
        };
        text::lemma_last_index(path, '/');
        assert(path.contains(path[0]));
    }
}

/// The host header value of a socket address, given the text of its IP address.
pub open spec fn host_value(address: SocketAddr, ip_text: Seq<char>) -> Seq<char> {
    match address {
        SocketAddr::V4 { port, .. } => ip_text + ":"@ + text::decimal(port as nat),
        SocketAddr::V6 { port, .. } => "["@ + ip_text + "]:"@ + text::decimal(port as nat),
    }
}

/// Format the host header value for the given socket address, whose IP address is written as
/// `ip_text`.
pub fn host_header(address: &SocketAddr, ip_text: &str) -> (host: String)
    ensures
        host@ == host_value(*address, ip_text@),
{
    let mut host = String::new();
    match address {
        SocketAddr::V4 { port, .. } => {
            host.append(ip_text);
            host.append(":");
            scan::append_decimal(&mut host, *port as u64);
            assert(host@ =~= host_value(*address, ip_text@));
        },
        SocketAddr::V6 { port, .. } => {
            host.append("[");
            host.append(ip_text);
            host.append("]:");
            scan::append_decimal(&mut host, *port as u64);
            assert(host@ =~= host_value(*address, ip_text@));
        },
    }
    host
}

/// The port in a host header value is the port of the address it was made for. The text of an
/// IPv4 address holds no colon and no bracket, and that of an IPv6 address no bracket.
pub proof fn law_host_port_is_read(address: SocketAddr, ip_text: Seq<char>)
    requires
        !ip_text.contains(']'),
        address is V4 ==> !ip_text.contains(':'),
    ensures
        port_of(host_value(address, ip_text)) == Some(address.spec_port() as nat),
{
    let host = host_value(address, ip_text);
    let port = address.spec_port() as nat;
    let digits = text::decimal(port);
    text::law_decimal_is_read(port, u16::MAX as nat);
    text::lemma_decimal_holds_digits(port, ':');
    text::lemma_decimal_holds_digits(port, ']');
    reveal_strlit(":");
    reveal_strlit("[");
    reveal_strlit("]:");
    match address {
        SocketAddr::V4 { .. } => {
            let n = ip_text.len() as int;
            assert forall|j: int| 0 <= j < host.len() implies host[j] != ']' by {
                if j < n {
                    assert(host[j] == ip_text[j]);
                } else if j > n {
                    assert(host[j] == digits[j - n - 1]);
                }
            }
            text::lemma_first_index_none(host, ']');
            assert forall|j: int| n < j < host.len() implies host[j] != ':' by {
                assert(host[j] == digits[j - n - 1]);
            }
            text::lemma_last_index_is(host, ':', n);
            assert(host.take(n) =~= ip_text);
            assert(host.skip(n + 1) =~= digits);
        },
        SocketAddr::V6 { .. } => {
            let n = ip_text.len() as int;
            assert forall|j: int| 0 <= j < n + 1 implies host[j] != ']' by {
                if j > 0 {
                    assert(host[j] == ip_text[j - 1]);
                }
            }
            text::lemma_first_index_is(host, ']', n + 1);
            let rest = host.skip(n + 2);
            assert(rest[0] == ':');
            assert(rest.skip(1) =~= digits);
        },
    }
}

/// A plain HTTP URL is taken apart into its authority and its path, which is the root if it is left
/// out. The scheme may be written in capital or small letters.
pub proof fn law_url_is_taken_apart(scheme: Seq<char>, authority: Seq<char>, path: Seq<char>)
    requires
        text::eq_ignore_case(scheme, "http://"@),
        authority.len() > 0,
        !authority.contains('/'),
        path.len() > 0,
        path[0] == '/',
    ensures
        split_url(scheme + authority + path) == Some((authority, path)),
        split_url(scheme + authority) == Some((authority, seq!['/'])),
        split_url(scheme + path) is None,
        split_url(scheme) is None,
{
    reveal_strlit("http://");
    reveal_strlit("/");
    assert("/"@ =~= seq!['/']);
    let whole = scheme + authority + path;
    assert(whole.take(7) =~= scheme);
    assert(whole.skip(7) =~= authority + path);
    let n = authority.len() as int;
    assert forall|j: int| 0 <= j < n implies (authority + path)[j] != '/' by {
        assert((authority + path)[j] == authority[j]);
        assert(authority.contains(authority[j]));
    }
    text::lemma_first_index_is(authority + path, '/', n);
    assert((authority + path).take(n) =~= authority);
    assert((authority + path).skip(n) =~= path);
    let short = scheme + authority;
    assert(short.take(7) =~= scheme);
    assert(short.skip(7) =~= authority);
    assert forall|j: int| 0 <= j < authority.len() implies authority[j] != '/' by {
        assert(authority.contains(authority[j]));
    }
    text::lemma_first_index_none(authority, '/');
    let rootless = scheme + path;
    assert(rootless.take(7) =~= scheme);
    assert(rootless.skip(7) =~= path);
    text::lemma_first_index_is(path, '/', 0);
    assert(path.take(0).len() == 0);
    assert(scheme.take(7) =~= scheme);
    assert(scheme.skip(7).len() == 0);
    text::lemma_first_index(scheme.skip(7), '/');
}

/// A URL with another scheme, or without one, is not taken apart.
pub proof fn law_other_schemes_are_rejected(url: Seq<char>)
    requires
        url.len() < 7 || !text::eq_ignore_case(url.take(7), "http://"@),
    ensures
        split_url(url) is None,
{
}

/// An authority without a port is at port 80. A port follows a colon, behind the closing bracket if
/// the host is in brackets, and is a number below 65536. More than one colon outside of brackets
/// means that there is no port.
pub proof fn law_port_is_read(host: Seq<char>, other: Seq<char>, port: nat)
    requires
        !host.contains(':'),
        !host.contains(']'),
        !other.contains(']'),
    ensures
        port_of(host) == Some(80nat),
        port_of(host + seq![':'] + text::decimal(port)) == (if port < 65536 {
            Some(port)
        } else {
            None
        }),
        port_of(seq!['['] + other + seq![']']) == Some(80nat),
        port_of(seq!['['] + other + seq![']', ':'] + text::decimal(port)) == (if port < 65536 {
            Some(port)
        } else {
            None
        }),
        port_of(host + seq![':'] + other + seq![':'] + host) == Some(80nat),
        port_of(host + seq![':']) is None,
{
    let digits = text::decimal(port);
    text::lemma_decimal_holds_digits(port, ':');
    text::lemma_decimal_holds_digits(port, ']');
    if port < 65536 {
        text::law_decimal_is_read(port, u16::MAX as nat);
    } else {
        text::law_decimal_is_read(port, port);
    }
    let n = host.len() as int;
    assert forall|j: int| 0 <= j < n implies host[j] != ':' && host[j] != ']' by {
        assert(host.contains(host[j]));
    }
    assert forall|j: int| 0 <= j < other.len() implies other[j] != ']' by {
        assert(other.contains(other[j]));
    }
    assert forall|j: int| 0 <= j < digits.len() implies digits[j] != ':' && digits[j] != ']' by {
        assert(digits.contains(digits[j]));
    }
    text::lemma_first_index_none(host, ']');
    text::lemma_last_index(host, ':');
    let with_port = host + seq![':'] + digits;
    lemma_port_after(host, digits);
    let bracketed = seq!['['] + other + seq![']'];
    let m = other.len() as int + 1;
    assert forall|j: int| 0 <= j < m implies bracketed[j] != ']' by {
        if j > 0 {
            assert(bracketed[j] == other[j - 1]);
        }
    }
    text::lemma_first_index_is(bracketed, ']', m);
    assert(bracketed.skip(m + 1).len() == 0);
    let full = seq!['['] + other + seq![']', ':'] + digits;
    assert forall|j: int| 0 <= j < m implies full[j] != ']' by {
        if j > 0 {
            assert(full[j] == other[j - 1]);
        }
    }
    text::lemma_first_index_is(full, ']', m);
    assert(full.skip(m + 1)[0] == ':');
    assert(full.skip(m + 1).skip(1) =~= digits);
    let bare = host + seq![':'] + other + seq![':'] + host;
    assert forall|j: int| 0 <= j < bare.len() implies bare[j] != ']' by {
        if j < n {
            assert(bare[j] == host[j]);
        } else if j > n && j < n + 1 + other.len() {
            assert(bare[j] == other[j - n - 1]);
        } else if j > n + 1 + other.len() {
            assert(bare[j] == host[j - n - 2 - other.len()]);
        }
    }
    text::lemma_first_index_none(bare, ']');
    let last: int = n + 1 + other.len();
    assert forall|j: int| last < j < bare.len() implies bare[j] != ':' by {
        assert(bare[j] == host[j - last - 1]);
    }
    text::lemma_last_index_is(bare, ':', last);
    assert(bare.take(last)[n] == ':');
    assert(bare.take(last).contains(bare.take(last)[n]));
    let nothing: Seq<char> = seq![];
    lemma_port_after(host, nothing);
    assert(host + seq![':'] + nothing =~= host + seq![':']);
    assert(text::parse_unsigned(nothing, 10, u16::MAX as nat) is None);
}

/// The text after the only colon is that of the port.
proof fn lemma_port_after(host: Seq<char>, port: Seq<char>)
    requires
        forall|j: int| 0 <= j < host.len() ==> host[j] != ':' && host[j] != ']',
        forall|j: int| 0 <= j < port.len() ==> port[j] != ':' && port[j] != ']',
    ensures
        port_text(host + seq![':'] + port) == Some(port),
{
    let n = host.len() as int;
    let all = host + seq![':'] + port;
    assert forall|j: int| 0 <= j < all.len() implies all[j] != ']' by {
        if j < n {
            assert(all[j] == host[j]);
        } else if j > n {
            assert(all[j] == port[j - n - 1]);
        }
    }
    text::lemma_first_index_none(all, ']');
    assert forall|j: int| n < j < all.len() implies all[j] != ':' by {
        assert(all[j] == port[j - n - 1]);
    }
    text::lemma_last_index_is(all, ':', n);
    assert(all.take(n) =~= host);
    assert(all.skip(n + 1) =~= port);
}

/// An absolute URL is resolved to itself. A relative one is resolved to the authority of the base
/// if there is one, and to that of the location otherwise. Its path is kept if it is absolute, and
/// otherwise replaces what follows the last slash of the path it is relative to.
pub proof fn law_url_is_resolved(
    url: Seq<char>,
    base: Option<Seq<char>>,
    location_authority: Seq<char>,
    location_path: Seq<char>,
    slash: int,
)
    ensures
        ({
            let resolved = resolve_url(url, base, location_authority, location_path);
            let absolute = url.len() >= 7 && text::eq_ignore_case(url.take(7), "http://"@);
            let against = match base {
                Some(b) => split_url(b),
                None => Some((location_authority, location_path)),
            };
            &&& absolute ==> resolved == split_url(url)
            &&& !absolute ==> (resolved is Some <==> against is Some)
            &&& !absolute && against is Some ==> {
                let (authority, path) = against.unwrap();
                &&& resolved.unwrap().0 == authority
                &&& url.len() > 0 && url[0] == '/' ==> resolved.unwrap().1 == url
                &&& !(url.len() > 0 && url[0] == '/') && 0 <= slash < path.len() && path[slash]
                    == '/' && !path.skip(slash + 1).contains('/') ==> resolved.unwrap().1 == path.take(
                    slash + 1,
                ) + url
            }
        }),
{
    let against = match base {
        Some(b) => split_url(b),
        None => Some((location_authority, location_path)),
    };
    if let Some((_, path)) = against {
        if 0 <= slash < path.len() && path[slash] == '/' && !path.skip(slash + 1).contains('/') {
            assert forall|j: int| slash < j < path.len() implies path[j] != '/' by {
                assert(path.skip(slash + 1)[j - slash - 1] == path[j]);
                assert(path.skip(slash + 1).contains(path[j]));
            }
            text::lemma_last_index_is(path, '/', slash);
        }
    }
}

/// A host header names the address and the port, with brackets around an IPv6 address.
pub proof fn law_host_names_the_address(address: SocketAddr, ip_text: Seq<char>)
    ensures
        address is V4 ==> host_value(address, ip_text) == ip_text + seq![':'] + text::decimal(
            address.spec_port() as nat,
        ),
        address is V6 ==> host_value(address, ip_text) == seq!['['] + ip_text + seq![']', ':']
            + text::decimal(address.spec_port() as nat),
{
    reveal_strlit(":");
    reveal_strlit("[");
    reveal_strlit("]:");
    assert(":"@ =~= seq![':']);
    assert("["@ =~= seq!['[']);
    assert("]:"@ =~= seq![']', ':']);
}

/// A resolution that fails is blamed on a URL that is no valid one: an absolute URL itself, or else
/// the base that a relative one is resolved against.
pub proof fn law_invalid_urls_are_blamed(
    url: Seq<char>,
    base: Option<Seq<char>>,
    location_authority: Seq<char>,
    location_path: Seq<char>,
)
    requires
        resolve_url(url, base, location_authority, location_path) is None,
    ensures
        split_url(unresolved_url(url, base)) is None,
        url.len() >= 7 && text::eq_ignore_case(url.take(7), "http://"@) ==> unresolved_url(url, base)
            == url,
        !(url.len() >= 7 && text::eq_ignore_case(url.take(7), "http://"@)) ==> base == Some(
            unresolved_url(url, base),
        ),
{
    law_url_is_resolved(url, base, location_authority, location_path, 0);
}

} // verus!
