//! The UPnP Internet Gateway Device protocol.

use vstd::prelude::*;

pub mod chunked;
pub mod control;
pub mod description;
pub mod discovery;
pub mod endpoint;
pub mod events;
pub mod exchange;
pub mod failure;
pub mod http;
pub mod location;
pub mod requests;
pub mod search;
pub mod service;
pub mod soap;
pub mod subscription;
pub mod url;
pub mod xml;

pub use crate::options::{tcp_timeout, timeout_config_default};
pub use control::{port_mapping_with_endpoint, try_drop_mapping};
pub use description::parse_device_description;
pub use endpoint::{ControlEndpoint, EventUrl};
pub use failure::{code_to_failure, ErrorCode, Failure, InvalidResponseKind};
pub use http::parse_http_response;
pub use search::{parse_search_response, SEARCH_TARGETS};
pub use service::WanService;
pub use soap::{external_address, response_error};
pub use url::{authority_port, resolve_control_url, split_http_url};
pub use xml::{decode_xml_entities, find_tag_value};

verus! {

/// The port UPnP devices are required to listen on for SSDP search requests.
/// See section 1.2 of the UPnP Device Architecture, <https://openconnectivity.org/upnp-specs/UPnP-arch-DeviceArchitecture-v1.1.pdf>.
pub const DISCOVERY_PORT: u16 = 1900;

/// The maximum number of seconds a device may wait before responding to a search request.
/// Used as both the SSDP `MX` header value and the initial response timeout.
pub const SEARCH_WINDOW_SECONDS: u64 = 2;

/// The maximum number of bytes we allow in an HTTP response, as protection against misbehaving devices.
/// Device descriptions observed in practice are tens of kilobytes at most.
pub const MAX_HTTP_RESPONSE_SIZE: usize = 256 * 1024;

/// The description reported to the gateway for port mappings created by this library.
/// Gateways commonly display this string in their management interfaces.
pub const PORT_MAPPING_DESCRIPTION: &'static str = "crab_nat";

} // verus!
