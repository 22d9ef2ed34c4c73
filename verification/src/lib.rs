//! The logic of a client for the NAT Port Mapping Protocol (NAT-PMP, [RFC 6886](https://www.rfc-editor.org/rfc/rfc6886)),
//! the Port Control Protocol (PCP, [RFC 6887](https://www.rfc-editor.org/rfc/rfc6887)), and the
//! UPnP Internet Gateway Device protocol.
//!
//! The library decides and parses; it does no input or output of its own. Exchanges with a gateway
//! are state machines: each says what to do next, and takes what came of it.

use vstd::prelude::*;

pub mod address;
pub mod binding;
pub mod bytes;
pub mod failures;
pub mod fallback;
pub mod listener;
pub mod mapping;
pub mod mark;
pub mod natpmp;
pub mod options;
pub mod pcp;
pub mod protocol;
pub mod reporting;
pub mod retry;
pub mod scan;
pub mod text;
pub mod time;
pub mod upnp;

pub use address::GatewayAddress;
pub use failures::{FallbackFailure, ListenerFailure, MappingFailure};
pub use listener::{AddressChange, AddressChangeListener};
pub use mapping::{PortMapping, PortMappingType};
pub use mark::{fwmark, set_fwmark};
pub use options::{PortMappingOptions, TimeoutConfig};
pub use protocol::{InternetProtocol, VersionCode};

verus! {

/// The required port for NAT-PMP and its successor, PCP.
pub const GATEWAY_PORT: u16 = 5351;

/// The port NAT-PMP and PCP clients listen on for multicast announcements from the gateway.
/// See <https://www.rfc-editor.org/rfc/rfc6886#section-3.2.1> and <https://www.rfc-editor.org/rfc/rfc6887#section-8.1>.
pub const ANNOUNCEMENT_PORT: u16 = 5350;

/// The RFC recommended lifetime for a port mapping, <https://www.rfc-editor.org/rfc/rfc6886#section-3.3> page 12.
pub const RECOMMENDED_MAPPING_LIFETIME_SECONDS: u32 = 7200;

} // verus!
