//! The protocols that ports are mapped with and for.

use vstd::prelude::*;

verus! {

/// 8-bit version field in the NAT-PMP and PCP headers.
#[derive(Clone, Copy, Debug, PartialEq, Eq, Structural)]
pub enum VersionCode {
    /// NAT-PMP identifies its version with a `0` byte.
    NatPmp,

    /// PCP identifies its version with a `2` byte.
    /// The RFC explicitly states that PCP must use version `2` because non-compliant
    /// devices were created that used `1` before the creation of PCP.
    Pcp,
}

impl VersionCode {
    /// The byte that identifies the version.
    pub open spec fn spec_number(self) -> u8 {
        match self {
            VersionCode::NatPmp => 0,
            VersionCode::Pcp => 2,
        }
    }

    /// The byte that identifies the version.
    pub fn number(self) -> (number: u8)
        ensures
            number == self.spec_number(),
    {
        match self {
            VersionCode::NatPmp => 0,
            VersionCode::Pcp => 2,
        }
    }

    /// The version that a byte identifies, if it identifies one.
    pub fn from_number(number: u8) -> (version: Option<VersionCode>)
        ensures
            match version {
                Some(v) => v.spec_number() == number,
                None => forall|v: VersionCode| (#[trigger] v.spec_number()) != number,
            },
    {
        match number {
            0 => Some(VersionCode::NatPmp),
            2 => Some(VersionCode::Pcp),
            _ => None,
        }
    }

    /// The name of the protocol.
    pub fn text(self) -> (text: &'static str)
        ensures
            text@ == (match self {
                VersionCode::NatPmp => "NAT-PMP"@,
                VersionCode::Pcp => "PCP"@,
            }),
    {
        match self {
            VersionCode::NatPmp => "NAT-PMP",
            VersionCode::Pcp => "PCP",
        }
    }
}

/// No two versions share a byte.
pub proof fn law_version_numbers_are_distinct(a: VersionCode, b: VersionCode)
    requires
        a.spec_number() == b.spec_number(),
    ensures
        a == b,
{
}

/// Specifies the protocol to map a port for.
/// Values are defined to match the opcodes in the NAT-PMP RFC, here <https://www.rfc-editor.org/rfc/rfc6886#section-3.3>.
#[derive(Clone, Copy, Debug, PartialEq, Eq, Structural)]
pub enum InternetProtocol {
    /// UDP
    Udp,

    /// TCP
    Tcp,
}

impl InternetProtocol {
    /// The opcode of a NAT-PMP request to map a port for the protocol.
    pub open spec fn spec_number(self) -> u8 {
        match self {
            InternetProtocol::Udp => 1,
            InternetProtocol::Tcp => 2,
        }
    }

    /// The opcode of a NAT-PMP request to map a port for the protocol.
    pub fn number(self) -> (number: u8)
        ensures
            number == self.spec_number(),
    {
        match self {
            InternetProtocol::Udp => 1,
            InternetProtocol::Tcp => 2,
        }
    }

    /// The name of the protocol.
    pub open spec fn spec_text(self) -> Seq<char> {
        match self {
            InternetProtocol::Udp => "UDP"@,
            InternetProtocol::Tcp => "TCP"@,
        }
    }

    /// The name of the protocol.
    pub fn text(self) -> (text: &'static str)
        ensures
            text@ == self.spec_text(),
    {
        match self {
            InternetProtocol::Udp => "UDP",
            InternetProtocol::Tcp => "TCP",
        }
    }
}

/// The numbers that versions and protocols have on the wire, and the names of the protocols.
pub proof fn law_protocol_numbers(version: VersionCode, protocol: InternetProtocol)
    ensures
        version is NatPmp <==> version.spec_number() == 0,
        version is Pcp <==> version.spec_number() == 2,
        protocol is Udp <==> protocol.spec_number() == 1,
        protocol is Tcp <==> protocol.spec_number() == 2,
        protocol.spec_text() == seq![
            if protocol is Udp {
                'U'
            } else {
                'T'
            },
            if protocol is Udp {
                'D'
            } else {
                'C'
            },
            'P',
        ],
{
    reveal_strlit("UDP");
    reveal_strlit("TCP");
    assert(protocol.spec_text() =~= seq![
        if protocol is Udp {
            'U'
        } else {
            'T'
        },
        if protocol is Udp {
            'D'
        } else {
            'C'
        },
        'P',
    ]);
}

} // verus!
