//! The services of a gateway that manage port mappings.

use vstd::prelude::*;
use vstd::string::*;

use crate::scan;
use crate::scan::{chars_of, span_number, span_starts_with};
use crate::text;
use crate::text::Span;

verus! {

/// The WAN connection service types which can manage port mappings on a gateway.
#[derive(Clone, Copy, Debug, PartialEq, Eq, Structural)]
pub enum WanService {
    /// The `WANPPPConnection:1` service, used by gateways which connect upstream over PPP.
    WanPppConnection1,

    /// The `WANIPConnection:1` service, defined by version 1 of the internet gateway device specifications.
    WanIpConnection1,

    /// The `WANIPConnection:2` service, defined by version 2 of the internet gateway device specifications.
    /// Preferred because it can let the gateway choose a free external port with `AddAnyPortMapping`.
    WanIpConnection2,
}

/// The version that the `:version` suffix of a service type gives, a missing one being `1`.
pub open spec fn service_version(suffix: Seq<char>) -> Option<nat> {
    if suffix.len() == 0 {
        Some(1)
    } else if suffix[0] == ':' {
        match text::parse_unsigned(suffix.skip(1), 10, u32::MAX as nat) {
            Some(version) => if version == 0 {
                None
            } else {
                Some(version)
            },
            None => None,
        }
    } else {
        None
    }
}

/// The WAN connection service that a service type names. Versions above those defined by the
/// specifications stand for the latest one.
pub open spec fn service_named(service_type: Seq<char>) -> Option<WanService> {
    let ip = "urn:schemas-upnp-org:service:WANIPConnection"@;
    let ppp = "urn:schemas-upnp-org:service:WANPPPConnection"@;
    if text::matches_at(service_type, 0, ip) {
        match service_version(service_type.skip(ip.len() as int)) {
            Some(version) => Some(
                if version == 1 {
                    WanService::WanIpConnection1
                } else {
                    WanService::WanIpConnection2
                },
            ),
            None => None,
        }
    } else if text::matches_at(service_type, 0, ppp) {
        match service_version(service_type.skip(ppp.len() as int)) {
            Some(_) => Some(WanService::WanPppConnection1),
            None => None,
        }
    } else {
        None
    }
}

impl WanService {
    /// The full service type URN.
    pub open spec fn spec_service_type(self) -> Seq<char> {
        match self {
            WanService::WanPppConnection1 => "urn:schemas-upnp-org:service:WANPPPConnection:1"@,
            WanService::WanIpConnection1 => "urn:schemas-upnp-org:service:WANIPConnection:1"@,
            WanService::WanIpConnection2 => "urn:schemas-upnp-org:service:WANIPConnection:2"@,
        }
    }

    /// The full service type URN, used to identify the service in device descriptions and SOAP requests.
    #[must_use]
    pub fn service_type(self) -> (service_type: &'static str)
        ensures
            service_type@ == self.spec_service_type(),
    {
        match self {
            WanService::WanPppConnection1 => "urn:schemas-upnp-org:service:WANPPPConnection:1",
            WanService::WanIpConnection1 => "urn:schemas-upnp-org:service:WANIPConnection:1",
            WanService::WanIpConnection2 => "urn:schemas-upnp-org:service:WANIPConnection:2",
        }
    }

    /// How much this service is preferred when a gateway offers several; greater is preferred.
    pub open spec fn spec_preference(self) -> u8 {
        match self {
            WanService::WanPppConnection1 => 0,
            WanService::WanIpConnection1 => 1,
            WanService::WanIpConnection2 => 2,
        }
    }

    /// How much this service is preferred when a gateway offers several; greater is preferred.
    pub fn preference(self) -> (preference: u8)
        ensures
            preference == self.spec_preference(),
    {
        match self {
            WanService::WanPppConnection1 => 0,
            WanService::WanIpConnection1 => 1,
            WanService::WanIpConnection2 => 2,
        }
    }

    /// Match a service type string from a device description to a supported WAN connection service.
    /// Service versions higher than those defined by the specifications are treated as the latest
    /// supported version, since devices are required to be backwards compatible within a service name.
    /// A missing version, used by some devices predating the standardized descriptions, is treated as `1`.
    pub fn from_service_type(service_type: &str) -> (service: Option<WanService>)
        ensures
            service == service_named(service_type@),
    {
        let ip: &str = "urn:schemas-upnp-org:service:WANIPConnection";
        let ppp: &str = "urn:schemas-upnp-org:service:WANPPPConnection";
        let chars = chars_of(service_type);
        let all = scan::whole(chars.as_slice());
        if span_starts_with(chars.as_slice(), all, ip) {
            let start: usize = chars_of(ip).len();
            let suffix = service_type.substring_char(start, all.end);
            assert(suffix@ =~= service_type@.skip(start as int));
            return match parse_service_version(suffix) {
                Some(1) => Some(WanService::WanIpConnection1),
                Some(_) => Some(WanService::WanIpConnection2),
                None => None,
            };
        }
        if span_starts_with(chars.as_slice(), all, ppp) {
            let start: usize = chars_of(ppp).len();
            let suffix = service_type.substring_char(start, all.end);
            assert(suffix@ =~= service_type@.skip(start as int));
            return match parse_service_version(suffix) {
                Some(_) => Some(WanService::WanPppConnection1),
                None => None,
            };
        }
        None
    }
}

/// Parse the `:version` suffix of a service type, treating a missing version as `1`.
pub fn parse_service_version(version: &str) -> (number: Option<u32>)
    ensures
        match number {
            Some(n) => service_version(version@) == Some(n as nat),
            None => service_version(version@) is None,
        },
{
    let chars = chars_of(version);
    let length: usize = chars.len();
    if length == 0 {
        return Some(1);
    }
    if chars[0] != ':' {
        return None;
    }
    let digits = Span { start: 1, end: length };
    assert(digits.of(version@) =~= version@.skip(1));
    match span_number(chars.as_slice(), digits, 10, u32::MAX as u64) {
        Some(n) => if n == 0 {
            None
        } else {
            Some(n as u32)
        },
        None => None,
    }
}

/// A version of one digit is read as that digit.
proof fn lemma_single_digit(suffix: Seq<char>, digit: nat)
    requires
        suffix.len() == 2,
        suffix[0] == ':',
        text::digit_value(suffix[1], 10) == Some(digit),
        0 < digit,
    ensures
        service_version(suffix) == Some(digit),
{
    let digits = suffix.skip(1);
    assert(digits.len() == 1 && digits[0] == suffix[1]);
    assert(text::unsigned_digits(digits) == digits);
    assert(digits.drop_last() =~= seq![]);
    assert(text::all_digits(digits, 10));
    reveal_with_fuel(text::digits_value, 2);
    assert(text::digits_value(digits, 10) == digit);
}

/// The service type of a service names that service.
pub proof fn law_service_type_names_service(service: WanService)
    ensures
        service_named(service.spec_service_type()) == Some(service),
{
    let ip = "urn:schemas-upnp-org:service:WANIPConnection"@;
    let ppp = "urn:schemas-upnp-org:service:WANPPPConnection"@;
    let t = service.spec_service_type();
    reveal_strlit("urn:schemas-upnp-org:service:WANIPConnection");
    reveal_strlit("urn:schemas-upnp-org:service:WANPPPConnection");
    reveal_strlit("urn:schemas-upnp-org:service:WANPPPConnection:1");
    reveal_strlit("urn:schemas-upnp-org:service:WANIPConnection:1");
    reveal_strlit("urn:schemas-upnp-org:service:WANIPConnection:2");
    match service {
        WanService::WanPppConnection1 => {
            assert(t.subrange(0, ip.len() as int)[32] == 'P' && ip[32] == 'I');
            assert(t.subrange(0, ppp.len() as int) =~= ppp);
            lemma_single_digit(t.skip(ppp.len() as int), 1);
        },
        WanService::WanIpConnection1 => {
            assert(t.subrange(0, ip.len() as int) =~= ip);
            lemma_single_digit(t.skip(ip.len() as int), 1);
        },
        WanService::WanIpConnection2 => {
            assert(t.subrange(0, ip.len() as int) =~= ip);
            lemma_single_digit(t.skip(ip.len() as int), 2);
        },
    }
}

/// A service type names the service before its version. The first version of the IP connection
/// service is told apart from the later ones, all of which are treated as the second. All versions
/// of the PPP connection service are treated as the first. A missing version is the first, and
/// there is no version zero.
pub proof fn law_versions_are_named(version: nat)
    requires
        version <= u32::MAX,
    ensures
        ({
            let ip = "urn:schemas-upnp-org:service:WANIPConnection"@;
            let ppp = "urn:schemas-upnp-org:service:WANPPPConnection"@;
            let suffix = seq![':'] + text::decimal(version);
            &&& service_named(ip) == Some(WanService::WanIpConnection1)
            &&& service_named(ppp) == Some(WanService::WanPppConnection1)
            &&& version == 0 ==> service_named(ip + suffix) is None && service_named(
                ppp + suffix,
            ) is None
            &&& version == 1 ==> service_named(ip + suffix) == Some(WanService::WanIpConnection1)
            &&& version >= 2 ==> service_named(ip + suffix) == Some(WanService::WanIpConnection2)
            &&& version >= 1 ==> service_named(ppp + suffix) == Some(WanService::WanPppConnection1)
        }),
{
    let suffix = seq![':'] + text::decimal(version);
    let nothing: Seq<char> = seq![];
    text::law_decimal_is_read(version, u32::MAX as nat);
    assert(suffix.skip(1) =~= text::decimal(version));
    lemma_named(suffix);
    lemma_named(nothing);
    let ip = "urn:schemas-upnp-org:service:WANIPConnection"@;
    let ppp = "urn:schemas-upnp-org:service:WANPPPConnection"@;
    assert(ip + nothing =~= ip);
    assert(ppp + nothing =~= ppp);
}

/// A service type is that of the service whose name it begins with.
proof fn lemma_named(suffix: Seq<char>)
    ensures
        ({
            let ip = "urn:schemas-upnp-org:service:WANIPConnection"@;
            let ppp = "urn:schemas-upnp-org:service:WANPPPConnection"@;
            &&& service_named(ip + suffix) == (match service_version(suffix) {
                Some(version) => Some(
                    if version == 1 {
                        WanService::WanIpConnection1
                    } else {
                        WanService::WanIpConnection2
                    },
                ),
                None => None,
            })
            &&& service_named(ppp + suffix) == (match service_version(suffix) {
                Some(_) => Some(WanService::WanPppConnection1),
                None => None,
            })
        }),
{
    let ip = "urn:schemas-upnp-org:service:WANIPConnection"@;
    let ppp = "urn:schemas-upnp-org:service:WANPPPConnection"@;
    reveal_strlit("urn:schemas-upnp-org:service:WANIPConnection");
    reveal_strlit("urn:schemas-upnp-org:service:WANPPPConnection");
    assert((ip + suffix).subrange(0, ip.len() as int) =~= ip);
    assert((ip + suffix).skip(ip.len() as int) =~= suffix);
    assert((ppp + suffix).subrange(0, ppp.len() as int) =~= ppp);
    assert((ppp + suffix).skip(ppp.len() as int) =~= suffix);
    assert(!text::matches_at(ppp + suffix, 0, ip)) by {
        if text::matches_at(ppp + suffix, 0, ip) {
            assert((ppp + suffix).subrange(0, ip.len() as int)[32] == (ppp + suffix)[32]);
            assert((ppp + suffix)[32] == ppp[32]);
            assert(ppp[32] == 'P' && ip[32] == 'I');
        }
    }
}

/// Nothing names a service but one of the two names, alone or with a colon and a number behind it.
pub proof fn law_other_service_types_are_ignored(service_type: Seq<char>)
    requires
        service_named(service_type) is Some,
    ensures
        ({
            let ip = "urn:schemas-upnp-org:service:WANIPConnection"@;
            let ppp = "urn:schemas-upnp-org:service:WANPPPConnection"@;
            let name = if service_named(service_type) == Some(WanService::WanPppConnection1) {
                ppp
            } else {
                ip
            };
            let n = name.len() as int;
            &&& service_type.len() >= n && service_type.take(n) == name
            &&& service_type.len() == n || (service_type[n] == ':' && text::parse_unsigned(
                service_type.skip(n + 1),
                10,
                u32::MAX as nat,
            ) is Some)
        }),
{
    let ip = "urn:schemas-upnp-org:service:WANIPConnection"@;
    let ppp = "urn:schemas-upnp-org:service:WANPPPConnection"@;
    let name = if service_named(service_type) == Some(WanService::WanPppConnection1) {
        ppp
    } else {
        ip
    };
    let n = name.len() as int;
    assert(service_type.subrange(0, n) =~= service_type.take(n));
    if service_type.len() > n {
        assert(service_type.skip(n).skip(1) =~= service_type.skip(n + 1));
    }
}

/// The second version of the IP connection service is preferred over the first, and the first over
/// the PPP connection service.
pub proof fn law_ip_connections_are_preferred()
    ensures
        WanService::WanIpConnection2.spec_preference()
            > WanService::WanIpConnection1.spec_preference(),
        WanService::WanIpConnection1.spec_preference()
            > WanService::WanPppConnection1.spec_preference(),
{
}

/// The types that services are addressed by.
pub proof fn law_service_types(service: WanService)
    ensures
        service is WanIpConnection1 ==> service.spec_service_type()
            == "urn:schemas-upnp-org:service:WANIPConnection"@ + seq![':', '1'],
        service is WanIpConnection2 ==> service.spec_service_type()
            == "urn:schemas-upnp-org:service:WANIPConnection"@ + seq![':', '2'],
        service is WanPppConnection1 ==> service.spec_service_type()
            == "urn:schemas-upnp-org:service:WANPPPConnection"@ + seq![':', '1'],
{
    reveal_strlit("urn:schemas-upnp-org:service:WANIPConnection");
    reveal_strlit("urn:schemas-upnp-org:service:WANPPPConnection");
    reveal_strlit("urn:schemas-upnp-org:service:WANPPPConnection:1");
    reveal_strlit("urn:schemas-upnp-org:service:WANIPConnection:1");
    reveal_strlit("urn:schemas-upnp-org:service:WANIPConnection:2");
    assert("urn:schemas-upnp-org:service:WANIPConnection:1"@
        =~= "urn:schemas-upnp-org:service:WANIPConnection"@ + seq![':', '1']);
    assert("urn:schemas-upnp-org:service:WANIPConnection:2"@
        =~= "urn:schemas-upnp-org:service:WANIPConnection"@ + seq![':', '2']);
    assert("urn:schemas-upnp-org:service:WANPPPConnection:1"@
        =~= "urn:schemas-upnp-org:service:WANPPPConnection"@ + seq![':', '1']);
}

} // verus!
