//! The URLs through which a gateway is controlled and reports its events.

use vstd::prelude::*;

use crate::address::SocketAddr;
use crate::upnp::service::WanService;

verus! {

/// The URL of a service's event subscription endpoint.
#[derive(Debug)]
pub struct EventUrl {
    /// The socket address of the HTTP server hosting the URL.
    pub address: SocketAddr,

    /// The absolute path of the URL.
    pub path: String,

    /// The index of the network interface the gateway was discovered through, if one was
    /// given; connections to the URL are bound to it, see `GatewayAddress::interface_index`.
    pub interface: Option<u32>,
}

/// What an event URL says.
pub struct EventUrlView {
    pub address: SocketAddr,
    pub path: Seq<char>,
    pub interface: Option<u32>,
}

impl View for EventUrl {
    type V = EventUrlView;

    open spec fn view(&self) -> EventUrlView {
        EventUrlView { address: self.address, path: self.path@, interface: self.interface }
    }
}

impl Clone for EventUrl {
    fn clone(&self) -> (copy: Self)
        ensures
            copy == *self,
    {
        EventUrl { address: self.address, path: self.path.clone(), interface: self.interface }
    }
}

/// The endpoint used to manage port mappings on the gateway, discovered through an SSDP
/// search and the device description it points to.
#[derive(Debug)]
pub struct ControlEndpoint {
    /// The socket address of the HTTP server on the gateway hosting the control URL.
    pub address: SocketAddr,

    /// The absolute path of the control URL on the gateway's HTTP server.
    pub control_path: String,

    /// The WAN connection service used to manage port mappings.
    pub service: WanService,

    /// The URL used to subscribe to the service's state change events.
    /// `None` if the service does not offer eventing.
    pub event_url: Option<EventUrl>,

    /// The index of the network interface the gateway was discovered through, if one was
    /// given; connections to the endpoint are bound to it, see `GatewayAddress::interface_index`.
    pub interface: Option<u32>,
}

/// What a control endpoint says.
pub struct ControlEndpointView {
    pub address: SocketAddr,
    pub control_path: Seq<char>,
    pub service: WanService,
    pub event_url: Option<EventUrlView>,
    pub interface: Option<u32>,
}

impl View for ControlEndpoint {
    type V = ControlEndpointView;

    open spec fn view(&self) -> ControlEndpointView {
        ControlEndpointView {
            address: self.address,
            control_path: self.control_path@,
            service: self.service,
            event_url: match self.event_url {
                Some(url) => Some(url@),
                None => None,
            },
            interface: self.interface,
        }
    }
}

impl Clone for ControlEndpoint {
    fn clone(&self) -> (copy: Self)
        ensures
            copy == *self,
    {
        let event_url = match &self.event_url {
            Some(url) => Some(url.clone()),
            None => None,
        };
        ControlEndpoint {
            address: self.address,
            control_path: self.control_path.clone(),
            service: self.service,
            event_url,
            interface: self.interface,
        }
    }
}

} // verus!
