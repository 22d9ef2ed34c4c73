//! Addresses of gateways, clients and sockets.

use vstd::prelude::*;

verus! {

/// An IPv4 address.
#[derive(Clone, Copy, Debug, PartialEq, Eq, Hash, Structural)]
pub struct Ipv4Addr {
    /// The octets of the address as one number, the first octet being the most significant.
    pub bits: u32,
}

/// An IPv6 address.
#[derive(Clone, Copy, Debug, PartialEq, Eq, Hash, Structural)]
pub struct Ipv6Addr {
    /// The segments of the address as one number, the first segment being the most significant.
    pub bits: u128,
}

/// The unspecified IPv4 address, `0.0.0.0`.
pub const UNSPECIFIED_V4_BITS: u32 = 0;

/// The unspecified IPv6 address, `::`.
pub const UNSPECIFIED_V6_BITS: u128 = 0;

/// The IPv4 all-hosts multicast group, `224.0.0.1`, which announcements are addressed to.
pub const ALL_HOSTS_BITS: u32 = 0xE000_0001;

/// The IPv6 all-nodes multicast group, `ff02::1`, which announcements are addressed to.
pub const ALL_NODES_BITS: u128 = 0xFF02_0000_0000_0000_0000_0000_0000_0001;

/// An IP address of either version.
#[derive(Clone, Copy, Debug, PartialEq, Eq, Hash, Structural)]
pub enum IpAddr {
    /// An IPv4 address.
    V4(Ipv4Addr),

    /// An IPv6 address.
    V6(Ipv6Addr),
}

impl IpAddr {
    /// The unspecified IPv4 address, reported by gateways without external connectivity.
    pub open spec fn spec_unspecified() -> IpAddr {
        IpAddr::V4(Ipv4Addr { bits: UNSPECIFIED_V4_BITS })
    }

    /// The unspecified IPv4 address, reported by gateways without external connectivity.
    pub fn unspecified() -> (ip: IpAddr)
        ensures
            ip == IpAddr::spec_unspecified(),
    {
        IpAddr::V4(Ipv4Addr { bits: UNSPECIFIED_V4_BITS })
    }

    /// Whether this is an IPv4 address.
    pub fn is_ipv4(&self) -> (b: bool)
        ensures
            b == (self is V4),
    {
        match self {
            IpAddr::V4(_) => true,
            IpAddr::V6(_) => false,
        }
    }
}

/// The address of a socket.
#[derive(Clone, Copy, Debug, PartialEq, Eq, Hash, Structural)]
#[allow(inconsistent_fields)]
pub enum SocketAddr {
    /// An IPv4 socket address.
    V4 { ip: Ipv4Addr, port: u16 },

    /// An IPv6 socket address. A scope id of zero means that no scope is given.
    V6 { ip: Ipv6Addr, port: u16, scope_id: u32 },
}

impl SocketAddr {
    /// The IP address of the socket.
    pub open spec fn spec_ip(self) -> IpAddr {
        match self {
            SocketAddr::V4 { ip, .. } => IpAddr::V4(ip),
            SocketAddr::V6 { ip, .. } => IpAddr::V6(ip),
        }
    }

    /// The IP address of the socket.
    pub fn ip(&self) -> (ip: IpAddr)
        ensures
            ip == self.spec_ip(),
    {
        match self {
            SocketAddr::V4 { ip, .. } => IpAddr::V4(*ip),
            SocketAddr::V6 { ip, .. } => IpAddr::V6(*ip),
        }
    }

    /// The port of the socket.
    pub open spec fn spec_port(self) -> u16 {
        match self {
            SocketAddr::V4 { port, .. } => port,
            SocketAddr::V6 { port, .. } => port,
        }
    }

    /// The port of the socket.
    pub fn port(&self) -> (port: u16)
        ensures
            port == self.spec_port(),
    {
        match self {
            SocketAddr::V4 { port, .. } => *port,
            SocketAddr::V6 { port, .. } => *port,
        }
    }
}

/// Specifies the address of the gateway, either IPv4 or IPv6.
#[derive(Clone, Copy, Debug, PartialEq, Eq, Hash, Structural)]
pub enum GatewayAddress {
    /// IPv4 address of the gateway.
    IpV4(Ipv4Addr),

    /// IPv6 address of the gateway, with an optional scope (zone) id for link-local addresses.
    IpV6(Ipv6Addr, Option<u32>),
}

impl GatewayAddress {
    /// The IP address of the gateway.
    pub open spec fn spec_ip(self) -> IpAddr {
        match self {
            GatewayAddress::IpV4(v4) => IpAddr::V4(v4),
            GatewayAddress::IpV6(v6, _) => IpAddr::V6(v6),
        }
    }

    /// The index of the network interface toward the gateway, if one was given.
    pub open spec fn spec_interface_index(self) -> Option<u32> {
        match self {
            GatewayAddress::IpV4(_) => None,
            GatewayAddress::IpV6(_, scope_id) => scope_id,
        }
    }

    /// The index of the network interface toward the gateway, if one was given.
    /// The scope id of a link-local IPv6 address is the index of the interface it belongs to.
    pub fn interface_index(&self) -> (index: Option<u32>)
        ensures
            index == self.spec_interface_index(),
    {
        match self {
            GatewayAddress::IpV4(_) => None,
            GatewayAddress::IpV6(_, scope_id) => *scope_id,
        }
    }
}

impl vstd::std_specs::convert::FromSpecImpl<GatewayAddress> for IpAddr {
    open spec fn obeys_from_spec() -> bool {
        true
    }

    open spec fn from_spec(gateway: GatewayAddress) -> IpAddr {
        gateway.spec_ip()
    }
}

impl From<GatewayAddress> for IpAddr {
    fn from(gateway: GatewayAddress) -> (ip: IpAddr) {
        match gateway {
            GatewayAddress::IpV4(v4) => IpAddr::V4(v4),
            GatewayAddress::IpV6(v6, _) => IpAddr::V6(v6),
        }
    }
}

impl vstd::std_specs::convert::FromSpecImpl<IpAddr> for GatewayAddress {
    open spec fn obeys_from_spec() -> bool {
        true
    }

    open spec fn from_spec(ip: IpAddr) -> GatewayAddress {
        match ip {
            IpAddr::V4(v4) => GatewayAddress::IpV4(v4),
            IpAddr::V6(v6) => GatewayAddress::IpV6(v6, None),
        }
    }
}

impl From<IpAddr> for GatewayAddress {
    fn from(ip: IpAddr) -> (gateway: GatewayAddress) {
        match ip {
            IpAddr::V4(v4) => GatewayAddress::IpV4(v4),
            IpAddr::V6(v6) => GatewayAddress::IpV6(v6, None),
        }
    }
}

impl vstd::std_specs::convert::FromSpecImpl<Ipv4Addr> for GatewayAddress {
    open spec fn obeys_from_spec() -> bool {
        true
    }

    open spec fn from_spec(ip: Ipv4Addr) -> GatewayAddress {
        GatewayAddress::IpV4(ip)
    }
}

impl From<Ipv4Addr> for GatewayAddress {
    fn from(ip: Ipv4Addr) -> (gateway: GatewayAddress) {
        GatewayAddress::IpV4(ip)
    }
}

impl vstd::std_specs::convert::FromSpecImpl<Ipv6Addr> for GatewayAddress {
    open spec fn obeys_from_spec() -> bool {
        true
    }

    open spec fn from_spec(ip: Ipv6Addr) -> GatewayAddress {
        GatewayAddress::IpV6(ip, None)
    }
}

impl From<Ipv6Addr> for GatewayAddress {
    fn from(ip: Ipv6Addr) -> (gateway: GatewayAddress) {
        GatewayAddress::IpV6(ip, None)
    }
}

/// Converting a gateway address to an IP address and back loses the scope id alone.
pub proof fn law_gateway_ip_round_trip(ip: IpAddr, gateway: GatewayAddress)
    ensures
        <GatewayAddress as vstd::std_specs::convert::FromSpec<IpAddr>>::from_spec(ip).spec_ip() == ip,
        gateway.spec_interface_index() is None ==> <GatewayAddress as vstd::std_specs::convert::FromSpec<
            IpAddr,
        >>::from_spec(gateway.spec_ip()) == gateway,
{
}

/// The socket address of the gateway at the given port, including any IPv6 scope id.
pub open spec fn gateway_socket(gateway: GatewayAddress, port: u16) -> SocketAddr {
    match gateway {
        GatewayAddress::IpV4(v4) => SocketAddr::V4 { ip: v4, port },
        GatewayAddress::IpV6(v6, scope_id) => SocketAddr::V6 {
            ip: v6,
            port,
            scope_id: match scope_id {
                Some(id) => id,
                None => 0,
            },
        },
    }
}

/// The socket address of the gateway at the given port, including any IPv6 scope ID.
#[must_use]
pub fn socket_address(gateway: GatewayAddress, port: u16) -> (address: SocketAddr)
    ensures
        address == gateway_socket(gateway, port),
        address.spec_ip() == gateway.spec_ip(),
        address.spec_port() == port,
{
    match gateway {
        GatewayAddress::IpV4(v4) => SocketAddr::V4 { ip: v4, port },
        GatewayAddress::IpV6(v6, scope_id) => SocketAddr::V6 {
            ip: v6,
            port,
            scope_id: match scope_id {
                Some(id) => id,
                None => 0,
            },
        },
    }
}

/// The local address to bind a socket to for exchanges with the gateway: any address of the IP
/// version of the gateway, at any port.
pub fn local_address(gateway: GatewayAddress) -> (address: SocketAddr)
    ensures
        address.spec_port() == 0,
        match gateway {
            GatewayAddress::IpV4(_) => address.spec_ip() == IpAddr::V4(
                Ipv4Addr { bits: UNSPECIFIED_V4_BITS },
            ),
            GatewayAddress::IpV6(_, _) => address == (SocketAddr::V6 {
                ip: Ipv6Addr { bits: UNSPECIFIED_V6_BITS },
                port: 0,
                scope_id: 0,
            }),
        },
{
    match gateway {
        GatewayAddress::IpV4(_) => SocketAddr::V4 {
            ip: Ipv4Addr { bits: UNSPECIFIED_V4_BITS },
            port: 0,
        },
        GatewayAddress::IpV6(_, _) => SocketAddr::V6 {
            ip: Ipv6Addr { bits: UNSPECIFIED_V6_BITS },
            port: 0,
            scope_id: 0,
        },
    }
}

/// The local address to bind a socket to for the multicast announcements of the gateway.
/// Binding the IPv4 group address also filters unrelated unicast traffic, where the platform
/// supports it.
pub fn announcement_address(gateway: GatewayAddress, groups_can_be_bound: bool) -> (address:
    SocketAddr)
    ensures
        address.spec_port() == crate::ANNOUNCEMENT_PORT,
        match gateway {
            GatewayAddress::IpV4(_) => address.spec_ip() == IpAddr::V4(
                Ipv4Addr {
                    bits: if groups_can_be_bound {
                        ALL_HOSTS_BITS
                    } else {
                        UNSPECIFIED_V4_BITS
                    },
                },
            ),
            GatewayAddress::IpV6(_, _) => address == (SocketAddr::V6 {
                ip: Ipv6Addr { bits: UNSPECIFIED_V6_BITS },
                port: crate::ANNOUNCEMENT_PORT,
                scope_id: 0,
            }),
        },
{
    match gateway {
        GatewayAddress::IpV4(_) => SocketAddr::V4 {
            ip: Ipv4Addr {
                bits: if groups_can_be_bound {
                    ALL_HOSTS_BITS
                } else {
                    UNSPECIFIED_V4_BITS
                },
            },
            port: crate::ANNOUNCEMENT_PORT,
        },
        GatewayAddress::IpV6(_, _) => SocketAddr::V6 {
            ip: Ipv6Addr { bits: UNSPECIFIED_V6_BITS },
            port: crate::ANNOUNCEMENT_PORT,
            scope_id: 0,
        },
    }
}

/// A multicast group to join.
#[derive(Clone, Copy, Debug, PartialEq, Eq, Structural)]
#[allow(inconsistent_fields)]
pub enum MulticastGroup {
    /// An IPv4 group, joined on any interface.
    V4 { group: Ipv4Addr },

    /// An IPv6 group, joined on the interface with the given index, or on any interface if the
    /// index is zero.
    V6 { group: Ipv6Addr, interface: u32 },
}

/// The multicast group that announcements of the gateway are addressed to.
pub fn announcement_group(gateway: GatewayAddress) -> (group: MulticastGroup)
    ensures
        group == (match gateway {
            GatewayAddress::IpV4(_) => MulticastGroup::V4 {
                group: Ipv4Addr { bits: ALL_HOSTS_BITS },
            },
            GatewayAddress::IpV6(_, scope_id) => MulticastGroup::V6 {
                group: Ipv6Addr { bits: ALL_NODES_BITS },
                interface: match scope_id {
                    Some(id) => id,
                    None => 0,
                },
            },
        }),
{
    match gateway {
        GatewayAddress::IpV4(_) => MulticastGroup::V4 { group: Ipv4Addr { bits: ALL_HOSTS_BITS } },
        GatewayAddress::IpV6(_, scope_id) => MulticastGroup::V6 {
            group: Ipv6Addr { bits: ALL_NODES_BITS },
            interface: match scope_id {
                Some(id) => id,
                None => 0,
            },
        },
    }
}

/// A port number other than zero.
#[derive(Clone, Copy, Debug, PartialEq, Eq, Hash, Structural)]
pub struct NonZeroU16 {
    value: u16,
}

impl NonZeroU16 {
    /// The number is not zero.
    #[verifier::type_invariant]
    spec fn wf(self) -> bool {
        self.value != 0
    }

    /// The number.
    pub closed spec fn spec_get(self) -> u16 {
        self.value
    }

    /// The given number, unless it is zero.
    pub fn new(value: u16) -> (port: Option<NonZeroU16>)
        ensures
            match port {
                Some(p) => p.spec_get() == value && value != 0,
                None => value == 0,
            },
    {
        if value != 0 {
            Some(NonZeroU16 { value })
        } else {
            None
        }
    }

    /// The number.
    pub fn get(self) -> (value: u16)
        ensures
            value == self.spec_get(),
            value != 0,
    {
        proof {
            use_type_invariant(&self);
        }
        self.value
    }
}

/// A socket address of the gateway is at its own address and at the port asked for. The scope of an
/// IPv6 address is kept, and is zero if there is none.
pub proof fn law_gateway_sockets(gateway: GatewayAddress, port: u16)
    ensures
        gateway_socket(gateway, port).spec_port() == port,
        gateway_socket(gateway, port).spec_ip() == gateway.spec_ip(),
        gateway matches GatewayAddress::IpV4(v4) ==> gateway.spec_ip() == IpAddr::V4(v4)
            && gateway.spec_interface_index() is None && gateway_socket(gateway, port) is V4,
        gateway matches GatewayAddress::IpV6(v6, scope_id) ==> {
            &&& gateway.spec_ip() == IpAddr::V6(v6)
            &&& gateway.spec_interface_index() == scope_id
            &&& gateway_socket(gateway, port) matches SocketAddr::V6 { scope_id: scope, .. } && (
            scope_id matches Some(id) ==> scope == id) && (scope_id is None ==> scope == 0)
        },
{
}

/// The groups that announcements are addressed to are 224.0.0.1 and ff02::1. The unspecified
/// addresses are all zeros. Announcements arrive at port 5350, and requests go to port 5351.
pub proof fn law_well_known_addresses()
    ensures
        ALL_HOSTS_BITS == 224 * 0x100_0000 + 1,
        ALL_NODES_BITS == 0xFF02 * 0x1_0000_0000_0000_0000_0000_0000_0000 + 1,
        IpAddr::spec_unspecified() == IpAddr::V4(Ipv4Addr { bits: 0 }),
        UNSPECIFIED_V6_BITS == 0,
        crate::ANNOUNCEMENT_PORT == 5350,
        crate::GATEWAY_PORT == crate::ANNOUNCEMENT_PORT + 1,
{
}

} // verus!
