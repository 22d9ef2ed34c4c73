//! Following the location of a device description to a control endpoint.

use vstd::prelude::*;
use vstd::string::*;

use crate::address;
use crate::address::{GatewayAddress, SocketAddr};
use crate::scan::chars_of;
use crate::text;
use crate::upnp::description;
use crate::upnp::description::{find_services, DescriptionService, DescriptionServiceView};
use crate::upnp::endpoint::{ControlEndpoint, ControlEndpointView, EventUrl, EventUrlView};
use crate::upnp::failure::{Failure, InvalidResponseKind};
use crate::upnp::http;
use crate::upnp::http::HttpResponse;
use crate::upnp::url;
use crate::upnp::url::{host_header, repoint_at_gateway, resolve_control_url, split_http_url};
use crate::upnp::xml;

verus! {

/// The maximum number of redirects followed when fetching a device description.
pub const MAX_REDIRECTS: usize = 3;

/// Whether a failure says that a URL is invalid.
pub open spec fn is_invalid_url(failure: Failure, url: Seq<char>) -> bool {
    failure matches Failure::InvalidResponse(InvalidResponseKind::InvalidUrl(u)) && u@ == url
}

/// Whether a status is that of a redirect.
pub open spec fn is_redirect(status: u16) -> bool {
    status == 301 || status == 302 || status == 303 || status == 307 || status == 308
}

/// What follows the response to a request for a device description.
#[derive(Debug)]
pub enum FetchStep {
    /// The description is to be requested again, where it was redirected to.
    Follow,

    /// The description was received.
    Description(String),

    /// The description could not be fetched.
    Failed(Failure),
}

/// Where a device description is being fetched from.
#[derive(Debug)]
pub struct LocationFetch {
    /// The gateway that announced the location.
    pub gateway: GatewayAddress,

    /// The authority of the location.
    pub authority: String,

    /// The path of the location.
    pub path: String,

    /// The number of redirects followed so far.
    pub redirects: usize,
}

/// The request for a device description.
pub open spec fn fetch_text(path: Seq<char>, host: Seq<char>) -> Seq<char> {
    "GET "@ + path + " HTTP/1.1\r\nHost: "@ + host + "\r\nConnection: close\r\n\r\n"@
}

impl LocationFetch {
    /// Paths begin with a slash, and no more redirects are followed than allowed.
    pub open spec fn wf(self) -> bool {
        &&& self.path@.len() > 0
        &&& self.path@[0] == '/'
        &&& self.redirects <= MAX_REDIRECTS
    }

    /// Start fetching the device description at a location announced by the gateway.
    pub fn new(gateway: GatewayAddress, location: &str) -> (fetch: Result<LocationFetch, Failure>)
        ensures
            match fetch {
                Ok(f) => {
                    &&& f.wf()
                    &&& f.gateway == gateway
                    &&& f.redirects == 0
                    &&& url::split_url(location@) == Some((f.authority@, f.path@))
                },
                Err(e) => url::split_url(location@) is None && is_invalid_url(e, location@),
            },
    {
        match split_http_url(location) {
            Ok((authority, path)) => {
                proof {
                    url::law_split_url(location@);
                }
                Ok(
                    LocationFetch {
                        gateway,
                        authority: authority.to_owned(),
                        path: path.to_owned(),
                        redirects: 0,
                    },
                )
            },
            Err(e) => Err(Failure::InvalidResponse(e)),
        }
    }

    /// The socket address to request the description from, which is always the gateway's own.
    pub fn target(&self) -> (target: Result<SocketAddr, Failure>)
        ensures
            match target {
                Ok(a) => {
                    &&& url::port_of(self.authority@) == Some(a.spec_port() as nat)
                    &&& a == address::gateway_socket(self.gateway, a.spec_port())
                    &&& a.spec_ip() == self.gateway.spec_ip()
                },
                Err(e) => url::port_of(self.authority@) is None && is_invalid_url(
                    e,
                    self.authority@,
                ),
            },
    {
        match repoint_at_gateway(self.gateway, self.authority.as_str()) {
            Ok(target) => Ok(target),
            Err(e) => Err(Failure::InvalidResponse(e)),
        }
    }

    /// The request for the description. `target_ip` is the text of the IP address of the target.
    pub fn request(&self, target: &SocketAddr, target_ip: &str) -> (request: String)
        ensures
            request@ == fetch_text(self.path@, url::host_value(*target, target_ip@)),
    {
        let host = host_header(target, target_ip);
        let mut request = "GET ".to_owned();
        request.append(self.path.as_str());
        request.append(" HTTP/1.1\r\nHost: ");
        request.append(host.as_str());
        request.append("\r\nConnection: close\r\n\r\n");
        request
    }

    /// The authority and path that a redirect leads to: those of an absolute URL, or the same
    /// authority for an absolute path.
    pub open spec fn redirected(self, location: Seq<char>) -> Option<(Seq<char>, Seq<char>)> {
        if location.len() > 0 && location[0] == '/' {
            Some((self.authority@, location))
        } else {
            url::split_url(location)
        }
    }

    /// Whether a fetch and a step follow from the response to the request.
    pub open spec fn is_next(
        self,
        exchange: Result<HttpResponse, Failure>,
        next: LocationFetch,
        step: FetchStep,
    ) -> bool {
        match exchange {
            Err(e) => next == self && step == FetchStep::Failed(e),
            Ok(response) => if response.status == 200 {
                next == self && (step matches FetchStep::Description(body) && body@
                    == response.body@)
            } else if is_redirect(response.status) && self.redirects < MAX_REDIRECTS
                && response.location is Some {
                let location = response.location.unwrap()@;
                match self.redirected(location) {
                    Some((authority, path)) => {
                        &&& step is Follow
                        &&& next.gateway == self.gateway
                        &&& next.authority@ == authority
                        &&& next.path@ == path
                        &&& next.redirects == self.redirects + 1
                    },
                    None => next == self && (step matches FetchStep::Failed(e) && is_invalid_url(
                        e,
                        location,
                    )),
                }
            } else {
                next == self && step == FetchStep::Failed(Failure::HttpStatus(response.status))
            },
        }
    }

    /// Take the outcome of requesting the description, following a few redirects, which some
    /// gateways use for their description documents.
    pub fn step(&mut self, exchange: Result<HttpResponse, Failure>) -> (step: FetchStep)
        requires
            old(self).wf(),
        ensures
            final(self).wf(),
            old(self).is_next(exchange, *final(self), step),
    {
        let response = match exchange {
            Ok(response) => response,
            Err(e) => {
                return FetchStep::Failed(e);
            },
        };
        let status: u16 = response.status;
        if status == 200 {
            return FetchStep::Description(response.body);
        }
        let redirect = status == 301 || status == 302 || status == 303 || status == 307 || status
            == 308;
        if !redirect || self.redirects >= MAX_REDIRECTS {
            return FetchStep::Failed(Failure::HttpStatus(status));
        }

        // Follow a redirect to an absolute URL or an absolute path.
        let location = match response.location {
            Some(location) => location,
            None => {
                return FetchStep::Failed(Failure::HttpStatus(status));
            },
        };
        let chars = chars_of(location.as_str());
        if chars.len() > 0 && chars[0] == '/' {
            self.path = location;
        } else {
            match split_http_url(location.as_str()) {
                Ok((authority, path)) => {
                    proof {
                        url::law_split_url(location@);
                    }
                    self.authority = authority.to_owned();
                    self.path = path.to_owned();
                },
                Err(e) => {
                    return FetchStep::Failed(Failure::InvalidResponse(e));
                },
            }
        }
        self.redirects = self.redirects + 1;
        FetchStep::Follow
    }
}

/// A device description is requested at most once more than redirects are allowed, and every
/// request goes to the gateway that announced it.
pub proof fn law_redirects_are_limited(
    fetch: LocationFetch,
    exchange: Result<HttpResponse, Failure>,
    next: LocationFetch,
    step: FetchStep,
)
    requires
        fetch.wf(),
        fetch.is_next(exchange, next, step),
    ensures
        next.gateway == fetch.gateway,
        step is Follow ==> fetch.redirects < next.redirects <= MAX_REDIRECTS,
{
}

/// The event URL of a service, as far as it can be resolved. A malformed event URL only disables
/// eventing.
pub open spec fn resolved_event_url(
    gateway: GatewayAddress,
    event_url: Option<Seq<char>>,
    base: Option<Seq<char>>,
    authority: Seq<char>,
    path: Seq<char>,
) -> Option<EventUrlView> {
    match event_url {
        Some(u) => match url::resolve_url(u, base, authority, path) {
            Some((event_authority, event_path)) => match url::port_of(event_authority) {
                Some(port) => Some(
                    EventUrlView {
                        address: address::gateway_socket(gateway, port as u16),
                        path: event_path,
                        interface: gateway.spec_interface_index(),
                    },
                ),
                None => None,
            },
            None => None,
        },
        None => None,
    }
}

/// The control endpoint of a service, or the URL that keeps it from having one.
pub open spec fn service_endpoint(
    gateway: GatewayAddress,
    service: DescriptionServiceView,
    base: Option<Seq<char>>,
    authority: Seq<char>,
    path: Seq<char>,
) -> Result<ControlEndpointView, Seq<char>> {
    match url::resolve_url(service.control_url, base, authority, path) {
        Some((control_authority, control_path)) => match url::port_of(control_authority) {
            Some(port) => Ok(
                ControlEndpointView {
                    address: address::gateway_socket(gateway, port as u16),
                    control_path,
                    service: service.service,
                    event_url: resolved_event_url(
                        gateway,
                        service.event_url,
                        base,
                        authority,
                        path,
                    ),
                    interface: gateway.spec_interface_index(),
                },
            ),
            None => Err(control_authority),
        },
        None => Err(url::unresolved_url(service.control_url, base)),
    }
}

/// The text of an optional reference.
pub open spec fn borrowed_text(s: Option<&str>) -> Option<Seq<char>> {
    match s {
        Some(t) => Some(t@),
        None => None,
    }
}

/// Resolves the event URL of a service.
fn read_event_url(
    gateway: GatewayAddress,
    event_url: &Option<String>,
    base: Option<&str>,
    authority: &str,
    path: &str,
) -> (resolved: Option<EventUrl>)
    requires
        path@.len() > 0,
        path@[0] == '/',
    ensures
        ({
            let spec = resolved_event_url(
                gateway,
                http::optional_text(*event_url),
                borrowed_text(base),
                authority@,
                path@,
            );
            match resolved {
                Some(u) => spec == Some(u@),
                None => spec is None,
            }
        }),
{
    assert(path@.contains(path@[0]));
    let written = match event_url {
        Some(written) => written,
        None => {
            return None;
        },
    };
    let (event_authority, event_path) = match resolve_control_url(
        written.as_str(),
        base,
        authority,
        path,
    ) {
        Ok(parts) => parts,
        Err(_) => {
            return None;
        },
    };
    match repoint_at_gateway(gateway, event_authority.as_str()) {
        Ok(address) => Some(
            EventUrl { address, path: event_path, interface: gateway.interface_index() },
        ),
        Err(_) => None,
    }
}

/// Finds the control endpoint of a service.
fn read_endpoint(
    gateway: GatewayAddress,
    service: &DescriptionService,
    base: Option<&str>,
    authority: &str,
    path: &str,
) -> (endpoint: Result<ControlEndpoint, Failure>)
    requires
        path@.len() > 0,
        path@[0] == '/',
    ensures
        ({
            let spec = service_endpoint(
                gateway,
                service@,
                borrowed_text(base),
                authority@,
                path@,
            );
            match endpoint {
                Ok(e) => spec == Ok::<_, Seq<char>>(e@),
                Err(f) => spec is Err && is_invalid_url(f, spec->Err_0),
            }
        }),
{
    assert(path@.contains(path@[0]));
    let (control_authority, control_path) = match resolve_control_url(
        service.control_url.as_str(),
        base,
        authority,
        path,
    ) {
        Ok(parts) => parts,
        Err(e) => {
            return Err(Failure::InvalidResponse(e));
        },
    };

    // A malformed event URL only disables eventing rather than failing the discovery.
    let event_url = read_event_url(gateway, &service.event_url, base, authority, path);
    match repoint_at_gateway(gateway, control_authority.as_str()) {
        Ok(address) => Ok(
            ControlEndpoint {
                address,
                control_path,
                service: service.service,
                event_url,
                interface: gateway.interface_index(),
            },
        ),
        Err(e) => Err(Failure::InvalidResponse(e)),
    }
}

/// The control endpoint, or the URL that keeps it from being one, of each service of a
/// description, most preferred first.
pub open spec fn description_endpoints(
    gateway: GatewayAddress,
    text: Seq<char>,
    authority: Seq<char>,
    path: Seq<char>,
) -> Seq<Result<ControlEndpointView, Seq<char>>> {
    let services = description::by_preference(description::described_services(text));
    let base = description::url_base(text);
    Seq::new(
        services.len(),
        |i: int| service_endpoint(gateway, services[i], base, authority, path),
    )
}

/// The first URL that keeps a service from having a control endpoint.
pub open spec fn first_invalid(endpoints: Seq<Result<ControlEndpointView, Seq<char>>>) -> Option<
    Seq<char>,
>
    decreases endpoints.len(),
{
    if endpoints.len() == 0 {
        None
    } else {
        match endpoints[0] {
            Err(url) => Some(url),
            Ok(_) => first_invalid(endpoints.skip(1)),
        }
    }
}

/// Whether endpoints are those of the services of a description.
pub open spec fn are_endpoints(
    endpoints: Seq<ControlEndpoint>,
    gateway: GatewayAddress,
    text: Seq<char>,
    authority: Seq<char>,
    path: Seq<char>,
) -> bool {
    let spec = description_endpoints(gateway, text, authority, path);
    &&& endpoints.len() > 0
    &&& endpoints.len() == spec.len()
    &&& forall|i: int|
        0 <= i < spec.len() ==> spec[i] == Ok::<_, Seq<char>>((#[trigger] endpoints[i])@)
}

/// Whether a failure is what keeps a description from giving control endpoints.
pub open spec fn is_endpoint_failure(
    failure: Failure,
    gateway: GatewayAddress,
    text: Seq<char>,
    authority: Seq<char>,
    path: Seq<char>,
) -> bool {
    let spec = description_endpoints(gateway, text, authority, path);
    match first_invalid(spec) {
        Some(u) => is_invalid_url(failure, u),
        None => spec.len() == 0 && failure == Failure::InvalidResponse(
            InvalidResponseKind::NoWanConnectionService,
        ),
    }
}

/// Find the control endpoints of the WAN connection services in a device description, most
/// preferred first. The possibly relative control URLs are resolved against the location of the
/// description, or the legacy `URLBase` element if one was given.
pub fn control_endpoints(
    gateway: GatewayAddress,
    description: &str,
    authority: &str,
    path: &str,
) -> (found: Result<Vec<ControlEndpoint>, Failure>)
    requires
        path@.len() > 0,
        path@[0] == '/',
    ensures
        match found {
            Ok(endpoints) => are_endpoints(
                endpoints@,
                gateway,
                description@,
                authority@,
                path@,
            ),
            Err(e) => is_endpoint_failure(e, gateway, description@, authority@, path@),
        },
{
    let ghost spec = description_endpoints(gateway, description@, authority@, path@);
    let (services, base_text) = match find_services(description) {
        Ok(found) => found,
        Err(e) => {
            proof {
                description::lemma_by_preference_length(
                    description::described_services(description@),
                );
            }
            return Err(Failure::InvalidResponse(e));
        },
    };
    proof {
        description::lemma_by_preference_length(description::described_services(description@));
    }
    let base: Option<&str> = match &base_text {
        Some(base) => Some(base.as_str()),
        None => None,
    };
    assert(borrowed_text(base) == description::url_base(description@));
    let mut endpoints: Vec<ControlEndpoint> = Vec::new();
    let mut i: usize = 0;
    assert(spec.skip(0) =~= spec);
    while i < services.len()
        invariant
            i <= services@.len(),
            path@.len() > 0,
            path@[0] == '/',
            services@.len() == spec.len(),
            spec.len() > 0,
            spec == description_endpoints(gateway, description@, authority@, path@),
            description::all_views(services@) == description::by_preference(
                description::described_services(description@),
            ),
            borrowed_text(base) == description::url_base(description@),
            endpoints@.len() == i,
            forall|j: int|
                0 <= j < i ==> spec[j] == Ok::<_, Seq<char>>((#[trigger] endpoints@[j])@),
            first_invalid(spec) == first_invalid(spec.skip(i as int)),
        decreases services@.len() - i,
    {
        proof {
            assert(description::all_views(services@)[i as int] == services@[i as int]@);
            assert(spec.skip(i as int)[0] == spec[i as int]);
            assert(spec.skip(i as int).skip(1) =~= spec.skip(i + 1));
        }
        match read_endpoint(gateway, &services[i], base, authority, path) {
            Ok(endpoint) => {
                endpoints.push(endpoint);
            },
            Err(e) => {
                return Err(e);
            },
        }
        i += 1;
    }
    Ok(endpoints)
}

/// The index of the endpoint to use, given the connection status that each reports: the first
/// which does not report a missing connection, or the most preferred if all do.
pub open spec fn preferred_index(statuses: Seq<Option<bool>>) -> int {
    match first_usable(statuses) {
        Some(i) => i,
        None => 0,
    }
}

/// The index of the first endpoint which does not report a missing connection.
pub open spec fn first_usable(statuses: Seq<Option<bool>>) -> Option<int>
    decreases statuses.len(),
{
    if statuses.len() == 0 {
        None
    } else if statuses[0] != Some(false) {
        Some(0)
    } else {
        match first_usable(statuses.skip(1)) {
            Some(i) => Some(i + 1),
            None => None,
        }
    }
}

/// The choice among the control endpoints of a gateway.
/// When the gateway offers several services, e.g. both PPP and IP connections, one which reports
/// an established connection is preferred. The check is best-effort: gateways which do not
/// implement `GetStatusInfo` still use the most preferred service.
#[derive(Debug)]
pub struct EndpointChoice {
    /// The endpoints to choose from, most preferred first.
    pub endpoints: Vec<ControlEndpoint>,

    /// The number of endpoints which reported a missing connection.
    pub refused: usize,
}

impl EndpointChoice {
    /// There is something to choose from.
    pub open spec fn wf(self) -> bool {
        self.refused < self.endpoints@.len()
    }

    /// A choice among endpoints.
    pub fn new(endpoints: Vec<ControlEndpoint>) -> (choice: EndpointChoice)
        requires
            endpoints@.len() > 0,
        ensures
            choice.wf(),
            choice.endpoints@ == endpoints@,
            choice.refused == 0,
    {
        EndpointChoice { endpoints, refused: 0 }
    }

    /// Whether connection statuses have to be asked for: a single endpoint is used as it is.
    pub fn is_open(&self) -> (open: bool)
        requires
            self.wf(),
        ensures
            open == (self.endpoints@.len() > 1),
    {
        self.endpoints.len() > 1
    }

    /// The endpoint whose connection status is to be asked for next, and the one to use if none
    /// is to be asked.
    pub fn candidate(&self) -> (endpoint: &ControlEndpoint)
        requires
            self.wf(),
        ensures
            *endpoint == self.endpoints@[self.refused as int],
    {
        &self.endpoints[self.refused]
    }

    /// Take the connection status of the candidate, which is `None` if the gateway did not
    /// report one. Returns the endpoint to use once it is chosen.
    pub fn answer(&mut self, connected: Option<bool>) -> (chosen: Option<ControlEndpoint>)
        requires
            old(self).wf(),
        ensures
            final(self).wf(),
            final(self).endpoints@ == old(self).endpoints@,
            match chosen {
                Some(endpoint) => {
                    &&& final(self).refused == old(self).refused
                    &&& endpoint == old(self).endpoints@[if connected != Some(false) {
                        old(self).refused as int
                    } else {
                        0
                    }]
                    &&& connected == Some(false) ==> old(self).refused + 1
                        == old(self).endpoints@.len()
                },
                None => connected == Some(false) && final(self).refused == old(self).refused + 1,
            },
    {
        match connected {
            Some(false) => {
                let count: usize = self.endpoints.len();
                if self.refused + 1 < count {
                    self.refused = self.refused + 1;
                    None
                } else {
                    Some(self.endpoints[0].clone())
                }
            },
            _ => Some(self.endpoints[self.refused].clone()),
        }
    }
}

/// Asking the endpoints in turn chooses the preferred one: when all endpoints before one reported
/// a missing connection, it is preferred if it does not, and the first is preferred if it is the
/// last and does.
pub proof fn law_choice_is_preferred(statuses: Seq<Option<bool>>, refused: int)
    requires
        0 <= refused < statuses.len(),
        forall|j: int| 0 <= j < refused ==> statuses[j] == Some(false),
    ensures
        statuses[refused] != Some(false) ==> preferred_index(statuses) == refused,
        statuses[refused] == Some(false) && refused + 1 == statuses.len() ==> preferred_index(
            statuses,
        ) == 0,
{
    lemma_first_usable(statuses, refused);
}

/// The search for a usable endpoint passes over those which are not.
proof fn lemma_first_usable(statuses: Seq<Option<bool>>, refused: int)
    requires
        0 <= refused < statuses.len(),
        forall|j: int| 0 <= j < refused ==> statuses[j] == Some(false),
    ensures
        statuses[refused] != Some(false) ==> first_usable(statuses) == Some(refused),
        statuses[refused] == Some(false) && refused + 1 == statuses.len() ==> first_usable(
            statuses,
        ) is None,
    decreases statuses.len(),
{
    if refused > 0 {
        assert(statuses[0] == Some(false));
        assert(statuses.skip(1)[refused - 1] == statuses[refused]);
        lemma_first_usable(statuses.skip(1), refused - 1);
    } else {
        reveal_with_fuel(first_usable, 2);
    }
}

/// What follows the response to a request for a device description.
#[derive(Debug)]
pub enum LocationStep {
    /// The description is to be requested from the given address.
    Request(SocketAddr),

    /// One of the control endpoints of the description is to be chosen.
    Choose(EndpointChoice),

    /// The location does not lead to a control endpoint.
    Failed(Failure),
}

impl LocationFetch {
    /// Whether a step is the request for the description from the gateway, or the failure of
    /// its authority to name a port.
    pub open spec fn is_request(self, step: LocationStep) -> bool {
        match url::port_of(self.authority@) {
            Some(port) => step == LocationStep::Request(
                address::gateway_socket(self.gateway, port as u16),
            ),
            None => step matches LocationStep::Failed(e) && is_invalid_url(e, self.authority@),
        }
    }

    /// The first step: to request the description from where the gateway announced it.
    pub fn first_step(&self) -> (step: LocationStep)
        ensures
            self.is_request(step),
    {
        match self.target() {
            Ok(target) => LocationStep::Request(target),
            Err(e) => LocationStep::Failed(e),
        }
    }

    /// Take the outcome of requesting the description. Redirects are followed, and the WAN
    /// connection services of a received description become the endpoints to choose from.
    pub fn advance(&mut self, exchange: Result<HttpResponse, Failure>) -> (step: LocationStep)
        requires
            old(self).wf(),
        ensures
            final(self).wf(),
            exists|fetched: FetchStep|
                {
                    &&& #[trigger] old(self).is_next(exchange, *final(self), fetched)
                    &&& match fetched {
                        FetchStep::Follow => final(self).is_request(step),
                        FetchStep::Description(text) => match step {
                            LocationStep::Choose(choice) => {
                                &&& choice.wf()
                                &&& choice.refused == 0
                                &&& are_endpoints(
                                    choice.endpoints@,
                                    old(self).gateway,
                                    text@,
                                    old(self).authority@,
                                    old(self).path@,
                                )
                            },
                            LocationStep::Failed(e) => is_endpoint_failure(
                                e,
                                old(self).gateway,
                                text@,
                                old(self).authority@,
                                old(self).path@,
                            ),
                            LocationStep::Request(_) => false,
                        },
                        FetchStep::Failed(e) => step == LocationStep::Failed(e),
                    }
                },
    {
        let fetched = self.step(exchange);
        assert(old(self).is_next(exchange, *self, fetched));
        match fetched {
            FetchStep::Follow => self.first_step(),
            FetchStep::Description(text) => match control_endpoints(
                self.gateway,
                text.as_str(),
                self.authority.as_str(),
                self.path.as_str(),
            ) {
                Ok(endpoints) => LocationStep::Choose(EndpointChoice::new(endpoints)),
                Err(e) => LocationStep::Failed(e),
            },
            FetchStep::Failed(e) => LocationStep::Failed(e),
        }
    }
}

/// Every control endpoint, and every event URL, that a description leads to is reached at the
/// gateway itself, and has an absolute path.
pub proof fn law_endpoints_are_on_the_gateway(
    endpoints: Seq<ControlEndpoint>,
    gateway: GatewayAddress,
    text: Seq<char>,
    authority: Seq<char>,
    path: Seq<char>,
    i: int,
)
    requires
        path.len() > 0,
        path[0] == '/',
        are_endpoints(endpoints, gateway, text, authority, path),
        0 <= i < endpoints.len(),
    ensures
        endpoints[i].address.spec_ip() == gateway.spec_ip(),
        endpoints[i].control_path@.len() > 0,
        endpoints[i].control_path@[0] == '/',
        endpoints[i].event_url matches Some(event_url) ==> {
            &&& event_url.address.spec_ip() == gateway.spec_ip()
            &&& event_url.path@.len() > 0
            &&& event_url.path@[0] == '/'
        },
{
    let service = description::by_preference(description::described_services(text))[i];
    let base = description::url_base(text);
    assert(description_endpoints(gateway, text, authority, path)[i] == Ok::<_, Seq<char>>(
        endpoints[i]@,
    ));
    url::law_resolved_path_is_absolute(service.control_url, base, authority, path);
    if let Some(event_url) = endpoints[i].event_url {
        assert(endpoints[i]@.event_url == Some(event_url@));
        url::law_resolved_path_is_absolute(service.event_url.unwrap(), base, authority, path);
    }
}

/// Whether a path is another with what follows its last slash replaced.
pub open spec fn replaces_what_follows_slash(
    from: Seq<char>,
    written: Seq<char>,
    target: Seq<char>,
) -> bool {
    forall|slash: int|
        0 <= slash < from.len() && #[trigger] from[slash] == '/' && !from.skip(slash + 1).contains('/')
            ==> target == from.take(slash + 1) + written
}

/// A path in the directory of another replaces what follows its last slash, and no other path does.
proof fn lemma_replaced(from: Seq<char>, written: Seq<char>, target: Seq<char>)
    requires
        from.contains('/'),
    ensures
        replaces_what_follows_slash(from, written, target) <==> target == url::directory(from)
            + written,
{
    text::lemma_last_index(from, '/');
    let last = text::last_index(from, '/').unwrap();
    assert forall|slash: int|
        0 <= slash < from.len() && #[trigger] from[slash] == '/' && !from.skip(slash + 1).contains(
            '/',
        ) implies slash == last by {
        if slash < last {
            assert(from.skip(slash + 1)[last - slash - 1] == '/');
            assert(from.skip(slash + 1).contains('/'));
        }
    }
    let after = from.skip(last + 1);
    assert forall|j: int| 0 <= j < after.len() implies #[trigger] after[j] != '/' by {
        assert(after[j] == from[last + 1 + j]);
    }
    assert(from[last] == '/');
}

/// Whether a URL in a description leads to a port and a path. An absolute URL leads to the port
/// that its authority carries. A relative one is taken against the base of the description, if it
/// has one, or else against the location of the description, whose authority then carries the
/// port: an absolute path is kept, and any other replaces what follows the last slash.
pub open spec fn leads_to(
    written: Seq<char>,
    base: Option<Seq<char>>,
    authority: Seq<char>,
    path: Seq<char>,
    port: u16,
    target: Seq<char>,
) -> bool {
    if written.len() >= 7 && text::eq_ignore_case(written.take(7), "http://"@) {
        url::split_url(written) matches Some((host, rest)) && url::port_of(host) == Some(port as nat)
            && target == rest
    } else {
        let against = match base {
            Some(b) => url::split_url(b),
            None => Some((authority, path)),
        };
        against matches Some((host, from)) && url::port_of(host) == Some(port as nat) && (
        if written.len() > 0 && written[0] == '/' {
            target == written
        } else {
            replaces_what_follows_slash(from, written, target)
        })
    }
}

/// The base that a description gives for its relative URLs.
pub open spec fn given_base(text: Seq<char>) -> Option<Seq<char>> {
    match xml::tag_value(text, "URLBase"@) {
        Some(base) => Some(xml::decoded(base)),
        None => None,
    }
}

/// Where a URL is resolved to is where it leads.
proof fn lemma_leads_to(
    written: Seq<char>,
    base: Option<Seq<char>>,
    authority: Seq<char>,
    path: Seq<char>,
)
    requires
        path.len() > 0,
        path[0] == '/',
    ensures
        forall|port: u16, target: Seq<char>| #[trigger]
            leads_to(written, base, authority, path, port, target) <==> (url::resolve_url(
                written,
                base,
                authority,
                path,
            ) matches Some((host, resolved)) && url::port_of(host) == Some(port as nat) && resolved
                == target),
{
    let against = match base {
        Some(b) => url::split_url(b),
        None => Some((authority, path)),
    };
    if let Some((host, from)) = against {
        if let Some(b) = base {
            url::law_split_url(b);
        }
        assert(from.contains(from[0]));
        assert forall|port: u16, target: Seq<char>| #[trigger]
            leads_to(written, base, authority, path, port, target) <==> (url::resolve_url(
                written,
                base,
                authority,
                path,
            ) matches Some((h, resolved)) && url::port_of(h) == Some(port as nat) && resolved
                == target) by {
            lemma_replaced(from, written, target);
        }
    }
}

/// Every control endpoint is the service, at the port and the path that its control URL leads to,
/// and is reached through the interface toward the gateway. Its events are subscribed to at the
/// port and the path that its event URL leads to, if it has one that leads anywhere. URLs are taken
/// against the base of the description rather than its location, if it has one.
pub proof fn law_endpoints_are_where_urls_lead(
    endpoints: Seq<ControlEndpoint>,
    gateway: GatewayAddress,
    text: Seq<char>,
    authority: Seq<char>,
    path: Seq<char>,
    i: int,
)
    requires
        path.len() > 0,
        path[0] == '/',
        are_endpoints(endpoints, gateway, text, authority, path),
        0 <= i < endpoints.len(),
    ensures
        ({
            let services = description::by_preference(description::described_services(text));
            let service = services[i];
            let base = given_base(text);
            let endpoint = endpoints[i];
            &&& services.len() == endpoints.len()
            &&& endpoint.service == service.service
            &&& leads_to(
                service.control_url,
                base,
                authority,
                path,
                endpoint.address.spec_port(),
                endpoint.control_path@,
            )
            &&& endpoint.interface == (match gateway {
                GatewayAddress::IpV4(_) => None,
                GatewayAddress::IpV6(_, scope_id) => scope_id,
            })
            &&& match endpoint.event_url {
                Some(event_url) => {
                    &&& service.event_url is Some
                    &&& leads_to(
                        service.event_url.unwrap(),
                        base,
                        authority,
                        path,
                        event_url.address.spec_port(),
                        event_url.path@,
                    )
                    &&& event_url.interface == endpoint.interface
                },
                None => service.event_url matches Some(written) ==> forall|
                    port: u16,
                    target: Seq<char>,
                | !#[trigger] leads_to(written, base, authority, path, port, target),
            }
        }),
{
    let services = description::by_preference(description::described_services(text));
    let service = services[i];
    let base = given_base(text);
    assert(description_endpoints(gateway, text, authority, path)[i] == Ok::<_, Seq<char>>(
        endpoints[i]@,
    ));
    assert(description_endpoints(gateway, text, authority, path)[i] == service_endpoint(
        gateway,
        service,
        base,
        authority,
        path,
    ));
    lemma_leads_to(service.control_url, base, authority, path);
    lemma_port_fits(service.control_url, base, authority, path);
    if let Some(written) = service.event_url {
        lemma_leads_to(written, base, authority, path);
        lemma_port_fits(written, base, authority, path);
        if endpoints[i].event_url is None {
            assert(endpoints[i]@.event_url is None);
            assert forall|port: u16, target: Seq<char>|
                !#[trigger] leads_to(written, base, authority, path, port, target) by {}
        }
    }
    if let Some(event_url) = endpoints[i].event_url {
        assert(endpoints[i]@.event_url == Some(event_url@));
    }
}

/// The port of a resolved URL is a number of a port.
proof fn lemma_port_fits(
    written: Seq<char>,
    base: Option<Seq<char>>,
    authority: Seq<char>,
    path: Seq<char>,
)
    ensures
        url::resolve_url(written, base, authority, path) matches Some((host, _)) ==> (url::port_of(
            host,
        ) matches Some(port) ==> port <= u16::MAX),
{
}

/// Endpoints and event URLs whose URLs are both relative are at the same port, which is that of the
/// base if there is one, and that of the location otherwise.
pub proof fn law_relative_urls_share_a_port(
    endpoints: Seq<ControlEndpoint>,
    gateway: GatewayAddress,
    text: Seq<char>,
    authority: Seq<char>,
    path: Seq<char>,
    i: int,
)
    requires
        path.len() > 0,
        path[0] == '/',
        are_endpoints(endpoints, gateway, text, authority, path),
        0 <= i < endpoints.len(),
        ({
            let service = description::by_preference(description::described_services(text))[i];
            let relative = |u: Seq<char>|
                u.len() < 7 || !text::eq_ignore_case(u.take(7), "http://"@);
            relative(service.control_url) && (service.event_url matches Some(u) ==> relative(u))
        }),
    ensures
        xml::tag_value(text, "URLBase"@) is None ==> url::port_of(authority) == Some(
            endpoints[i].address.spec_port() as nat,
        ),
        xml::tag_value(text, "URLBase"@) matches Some(base) ==> (url::split_url(
            xml::decoded(base),
        ) matches Some((host, _)) && url::port_of(host) == Some(
            endpoints[i].address.spec_port() as nat,
        )),
        endpoints[i].event_url matches Some(event_url) ==> event_url.address
            == endpoints[i].address,
{
    law_endpoints_are_where_urls_lead(endpoints, gateway, text, authority, path, i);
    assert(description_endpoints(gateway, text, authority, path)[i] == Ok::<_, Seq<char>>(
        endpoints[i]@,
    ));
    if let Some(event_url) = endpoints[i].event_url {
        assert(endpoints[i]@.event_url == Some(event_url@));
    }
}

/// A description gives no endpoints only if it describes no service, or has a service whose control
/// URL leads nowhere.
pub proof fn law_endpoints_are_found(
    failure: Failure,
    gateway: GatewayAddress,
    text: Seq<char>,
    authority: Seq<char>,
    path: Seq<char>,
)
    requires
        path.len() > 0,
        path[0] == '/',
        is_endpoint_failure(failure, gateway, text, authority, path),
    ensures
        ({
            let services = description::by_preference(description::described_services(text));
            ||| services.len() == 0 && failure == Failure::InvalidResponse(
                InvalidResponseKind::NoWanConnectionService,
            )
            ||| failure matches Failure::InvalidResponse(InvalidResponseKind::InvalidUrl(_)) && exists|
                i: int,
            |
                0 <= i < services.len() && forall|port: u16, target: Seq<char>|
                    !#[trigger] leads_to(
                        (#[trigger] services[i]).control_url,
                        given_base(text),
                        authority,
                        path,
                        port,
                        target,
                    )
        }),
{
    let services = description::by_preference(description::described_services(text));
    let spec = description_endpoints(gateway, text, authority, path);
    lemma_first_invalid(spec);
    if first_invalid(spec) is Some {
        let i = choose|i: int| 0 <= i < spec.len() && (#[trigger] spec[i]) is Err;
        let written = services[i].control_url;
        assert(spec[i] == service_endpoint(
            gateway,
            services[i],
            given_base(text),
            authority,
            path,
        ));
        lemma_leads_to(written, given_base(text), authority, path);
        assert forall|port: u16, target: Seq<char>|
            !#[trigger] leads_to(
                services[i].control_url,
                given_base(text),
                authority,
                path,
                port,
                target,
            ) by {}
    }
}

/// The first invalid URL is that of some service.
proof fn lemma_first_invalid(endpoints: Seq<Result<ControlEndpointView, Seq<char>>>)
    ensures
        first_invalid(endpoints) is Some <==> exists|i: int|
            0 <= i < endpoints.len() && (#[trigger] endpoints[i]) is Err,
    decreases endpoints.len(),
{
    if endpoints.len() > 0 {
        let rest = endpoints.skip(1);
        lemma_first_invalid(rest);
        if endpoints[0] is Ok {
            if first_invalid(rest) is Some {
                let i = choose|i: int| 0 <= i < rest.len() && (#[trigger] rest[i]) is Err;
                assert(endpoints[i + 1] is Err);
            }
            if exists|i: int| 0 <= i < endpoints.len() && (#[trigger] endpoints[i]) is Err {
                let i = choose|i: int| 0 <= i < endpoints.len() && (#[trigger] endpoints[i]) is Err;
                assert(rest[i - 1] is Err);
            }
        }
    }
}

/// A description is taken from a response of success. The statuses of a redirect that names its
/// location are followed, up to three times in all: to an absolute path at the same authority, or to
/// where a URL says. Any other status is a failure.
pub proof fn law_redirects_are_followed(
    fetch: LocationFetch,
    response: HttpResponse,
    next: LocationFetch,
    step: FetchStep,
)
    requires
        fetch.is_next(Ok(response), next, step),
    ensures
        step is Description <==> response.status == 200,
        step matches FetchStep::Description(body) ==> body@ == response.body@,
        step is Follow ==> {
            &&& response.status == 301 || response.status == 302 || response.status == 303
                || response.status == 307 || response.status == 308
            &&& fetch.redirects < 3
            &&& next.redirects == fetch.redirects + 1
            &&& response.location matches Some(location) && if location@.len() > 0 && location@[0]
                == '/' {
                next.authority@ == fetch.authority@ && next.path@ == location@
            } else {
                url::split_url(location@) == Some((next.authority@, next.path@))
            }
        },
        step is Failed ==> response.status != 200 && !({
            &&& response.status == 301 || response.status == 302 || response.status == 303
                || response.status == 307 || response.status == 308
            &&& fetch.redirects < 3
            &&& response.location matches Some(location) && (location@.len() > 0 && location@[0]
                == '/' || url::split_url(location@) is Some)
        }),
{
}

/// A description is requested from the gateway itself, at the port that the location names, and
/// from nowhere else. A location whose port is no number is an invalid one.
pub proof fn law_descriptions_are_requested_from_the_gateway(
    fetch: LocationFetch,
    step: LocationStep,
    port: u16,
)
    ensures
        url::port_of(fetch.authority@) == Some(port as nat) ==> {
            &&& fetch.is_request(
                LocationStep::Request(
                    match fetch.gateway {
                        GatewayAddress::IpV4(ip) => SocketAddr::V4 { ip, port },
                        GatewayAddress::IpV6(ip, Some(scope_id)) => SocketAddr::V6 {
                            ip,
                            port,
                            scope_id,
                        },
                        GatewayAddress::IpV6(ip, None) => SocketAddr::V6 { ip, port, scope_id: 0 },
                    },
                ),
            )
            &&& fetch.is_request(step) ==> (step matches LocationStep::Request(target)
                && target.spec_port() == port)
        },
        url::port_of(fetch.authority@) is None && fetch.is_request(step) ==> (
        step matches LocationStep::Failed(Failure::InvalidResponse(InvalidResponseKind::InvalidUrl(u)))
            && u@ == fetch.authority@),
{
}

/// A description of which some control URL is invalid fails for the first such URL, in the order of
/// preference: one that is no valid URL itself, or an authority whose port is no number.
pub proof fn law_first_invalid_url_is_reported(
    failure: Failure,
    gateway: GatewayAddress,
    text: Seq<char>,
    authority: Seq<char>,
    path: Seq<char>,
    i: int,
)
    requires
        is_endpoint_failure(failure, gateway, text, authority, path),
        0 <= i < description_endpoints(gateway, text, authority, path).len(),
        description_endpoints(gateway, text, authority, path)[i] is Err,
        forall|j: int|
            0 <= j < i ==> (#[trigger] description_endpoints(
                gateway,
                text,
                authority,
                path,
            )[j]) is Ok,
    ensures
        ({
            let service = description::by_preference(description::described_services(text))[i];
            let resolved = url::resolve_url(
                service.control_url,
                description::url_base(text),
                authority,
                path,
            );
            failure matches Failure::InvalidResponse(InvalidResponseKind::InvalidUrl(u)) && match resolved {
                Some((control_authority, _)) => u@ == control_authority && url::port_of(u@) is None,
                None => url::split_url(u@) is None && (u@ == service.control_url || Some(u@)
                    == description::url_base(text)),
            }
        }),
{
    let spec = description_endpoints(gateway, text, authority, path);
    let base = description::url_base(text);
    let service = description::by_preference(description::described_services(text))[i];
    lemma_first_invalid_is(spec, i);
    if url::resolve_url(service.control_url, base, authority, path) is None {
        url::law_invalid_urls_are_blamed(service.control_url, base, authority, path);
    }
}

/// The first invalid URL is the one that only usable endpoints stand before.
proof fn lemma_first_invalid_is(endpoints: Seq<Result<ControlEndpointView, Seq<char>>>, i: int)
    requires
        0 <= i < endpoints.len(),
        endpoints[i] is Err,
        forall|j: int| 0 <= j < i ==> (#[trigger] endpoints[j]) is Ok,
    ensures
        first_invalid(endpoints) == Some(endpoints[i]->Err_0),
    decreases i,
{
    if i > 0 {
        let rest = endpoints.skip(1);
        assert(endpoints[0] is Ok);
        assert forall|j: int| 0 <= j < i - 1 implies (#[trigger] rest[j]) is Ok by {
            assert(rest[j] == endpoints[j + 1]);
        }
        lemma_first_invalid_is(rest, i - 1);
    }
}

} // verus!
