//! Device descriptions, which name the services that a gateway offers.

use vstd::prelude::*;
use vstd::string::*;

use crate::scan;
use crate::scan::{chars_of, find_pattern};
use crate::text;
use crate::upnp::failure::InvalidResponseKind;
use crate::upnp::http;
use crate::upnp::service;
use crate::upnp::service::WanService;
use crate::upnp::xml;
use crate::upnp::xml::{decode_xml_entities, find_tag_value};

verus! {

/// A WAN connection service entry parsed from a device description, with URLs as written.
#[derive(Debug, PartialEq)]
pub struct DescriptionService {
    /// The service.
    pub service: WanService,

    /// The URL that actions of the service are sent to.
    pub control_url: String,

    /// The URL that events of the service are subscribed to at, if it offers eventing.
    pub event_url: Option<String>,
}

/// What a service entry says.
pub struct DescriptionServiceView {
    pub service: WanService,
    pub control_url: Seq<char>,
    pub event_url: Option<Seq<char>>,
}

impl View for DescriptionService {
    type V = DescriptionServiceView;

    open spec fn view(&self) -> DescriptionServiceView {
        DescriptionServiceView {
            service: self.service,
            control_url: self.control_url@,
            event_url: http::optional_text(self.event_url),
        }
    }
}

/// What several service entries say.
pub open spec fn all_views(services: Seq<DescriptionService>) -> Seq<DescriptionServiceView> {
    Seq::new(services.len(), |i: int| services[i]@)
}

/// The WAN connection services in a device description and the legacy `URLBase` element if one was given.
pub type DescriptionServices = (Vec<DescriptionService>, Option<String>);

/// The service that an entry describes, if it names a control URL and a WAN connection service
/// type. An empty event URL means that the service does not offer eventing.
pub open spec fn described_service(entry: Seq<char>) -> Option<DescriptionServiceView> {
    match xml::tag_value(entry, "serviceType"@) {
        Some(service_type) => match (
            service::service_named(service_type),
            xml::tag_value(entry, "controlURL"@),
        ) {
            (Some(service), Some(control_url)) => Some(
                DescriptionServiceView {
                    service,
                    control_url: xml::decoded(control_url),
                    event_url: match xml::tag_value(entry, "eventSubURL"@) {
                        Some(url) => if url.len() > 0 {
                            Some(xml::decoded(url))
                        } else {
                            None
                        },
                        None => None,
                    },
                },
            ),
            _ => None,
        },
        None => None,
    }
}

/// The WAN connection services described by the entries of a text, in the order of the entries.
pub open spec fn described_services(description: Seq<char>) -> Seq<DescriptionServiceView>
    decreases description.len(),
    via described_services_decreases
{
    match text::find(description, "<service>"@) {
        Some(start) => {
            let rest = description.skip(start + "<service>"@.len());
            match text::find(rest, "</service>"@) {
                Some(end) => {
                    let more = described_services(rest.skip(end));
                    match described_service(rest.take(end)) {
                        Some(service) => seq![service] + more,
                        None => more,
                    }
                },
                None => seq![],
            }
        },
        None => seq![],
    }
}

#[via_fn]
proof fn described_services_decreases(description: Seq<char>) {
    reveal_strlit("<service>");
    text::lemma_find_from(description, "<service>"@, 0);
    if let Some(start) = text::find(description, "<service>"@) {
        let rest = description.skip(start + "<service>"@.len());
        text::lemma_find_from(rest, "</service>"@, 0);
    }
}

/// The entries of one service, in their order.
pub open spec fn entries_of(services: Seq<DescriptionServiceView>, service: WanService) -> Seq<
    DescriptionServiceView,
> {
    services.filter(|s: DescriptionServiceView| s.service == service)
}

/// The services ordered by preference, and among equals in their order.
pub open spec fn by_preference(services: Seq<DescriptionServiceView>) -> Seq<
    DescriptionServiceView,
> {
    entries_of(services, WanService::WanIpConnection2) + entries_of(
        services,
        WanService::WanIpConnection1,
    ) + entries_of(services, WanService::WanPppConnection1)
}

/// The `URLBase` of a device description.
pub open spec fn url_base(description: Seq<char>) -> Option<Seq<char>> {
    match xml::tag_value(description, "URLBase"@) {
        Some(base) => Some(xml::decoded(base)),
        None => None,
    }
}

/// Reads a service entry.
fn read_service(entry: &str) -> (service: Option<DescriptionService>)
    ensures
        match service {
            Some(s) => described_service(entry@) == Some(s@),
            None => described_service(entry@) is None,
        },
{
    // Only consider service entries which name a control URL and a WAN connection service type.
    let service = match find_tag_value(entry, "serviceType") {
        Some(service_type) => match WanService::from_service_type(service_type) {
            Some(service) => service,
            None => {
                return None;
            },
        },
        None => {
            return None;
        },
    };
    let control_url = match find_tag_value(entry, "controlURL") {
        Some(url) => decode_xml_entities(url),
        None => {
            return None;
        },
    };
    let event_url = match find_tag_value(entry, "eventSubURL") {
        Some(url) => if url.is_empty() {
            None
        } else {
            Some(decode_xml_entities(url))
        },
        None => None,
    };
    Some(DescriptionService { service, control_url, event_url })
}

/// An entry added at the end is added to the entries of its own service alone.
proof fn lemma_entries_push(
    services: Seq<DescriptionServiceView>,
    added: DescriptionServiceView,
    service: WanService,
)
    ensures
        entries_of(services.push(added), service) == if added.service == service {
            entries_of(services, service).push(added)
        } else {
            entries_of(services, service)
        },
{
    reveal(Seq::filter);
    assert(services.push(added).drop_last() =~= services);
}

/// The views of entries with one more.
proof fn lemma_views_push(services: Seq<DescriptionService>, added: DescriptionService)
    ensures
        all_views(services.push(added)) == all_views(services).push(added@),
{
    assert(all_views(services.push(added)) =~= all_views(services).push(added@));
}

/// Find the WAN connection services in a device description, with the URLs of their control and
/// events, most preferred first.
pub fn find_services(description: &str) -> (found: Result<DescriptionServices, InvalidResponseKind>)
    ensures
        match found {
            Ok((services, base)) => {
                &&& described_services(description@).len() > 0
                &&& all_views(services@) == by_preference(described_services(description@))
                &&& http::optional_text(base) == url_base(description@)
            },
            Err(e) => e is NoWanConnectionService && described_services(description@).len() == 0,
        },
{
    // `URLBase` was removed in version 1.1 of the UPnP Device Architecture, but older devices may specify it.
    let base = match find_tag_value(description, "URLBase") {
        Some(base) => Some(decode_xml_entities(base)),
        None => None,
    };

    // Scan the `<service>` entries of the nested device lists for WAN connection services.
    let chars = chars_of(description);
    let open = chars_of("<service>");
    let close = chars_of("</service>");
    let length: usize = chars.len();
    let ghost all = described_services(description@);
    let ghost mut seen: Seq<DescriptionServiceView> = seq![];
    let mut version_2: Vec<DescriptionService> = Vec::new();
    let mut version_1: Vec<DescriptionService> = Vec::new();
    let mut ppp: Vec<DescriptionService> = Vec::new();
    let mut from: usize = 0;
    proof {
        reveal(Seq::filter);
        assert(description@.skip(0) =~= description@);
        assert(seen + all =~= all);
        assert(all_views(version_2@) =~= seen);
        assert(all_views(version_1@) =~= seen);
        assert(all_views(ppp@) =~= seen);
    }
    loop
        invariant_except_break
            seen + described_services(description@.skip(from as int)) == all,
        invariant
            length == description@.len(),
            chars@ == description@,
            open@ == "<service>"@,
            close@ == "</service>"@,
            from <= length,
            all == described_services(description@),
            all_views(version_2@) == entries_of(seen, WanService::WanIpConnection2),
            all_views(version_1@) == entries_of(seen, WanService::WanIpConnection1),
            all_views(ppp@) == entries_of(seen, WanService::WanPppConnection1),
        ensures
            seen == all,
        decreases length - from,
    {
        let ghost rest = description@.skip(from as int);
        proof {
            reveal_strlit("<service>");
            scan::lemma_find_suffix(description@, open@, from as int);
        }
        let start: usize = match find_pattern(chars.as_slice(), open.as_slice(), from) {
            Some(i) => i + open.len(),
            None => {
                assert(seen + described_services(rest) =~= seen);
                break;
            },
        };
        proof {
            assert(rest.skip(start - from) =~= description@.skip(start as int));
            scan::lemma_find_suffix(description@, close@, start as int);
        }
        let end: usize = match find_pattern(chars.as_slice(), close.as_slice(), start) {
            Some(i) => i,
            None => {
                assert(seen + described_services(rest) =~= seen);
                break;
            },
        };
        let entry = description.substring_char(start, end);
        proof {
            let tail = description@.skip(start as int);
            assert(entry@ =~= tail.take(end - start));
            assert(tail.skip(end - start) =~= description@.skip(end as int));
        }
        match read_service(entry) {
            Some(service) => {
                proof {
                    let more = described_services(description@.skip(end as int));
                    assert(seen + (seq![service@] + more) =~= seen.push(service@) + more);
                    lemma_entries_push(seen, service@, WanService::WanIpConnection2);
                    lemma_entries_push(seen, service@, WanService::WanIpConnection1);
                    lemma_entries_push(seen, service@, WanService::WanPppConnection1);
                    lemma_views_push(version_2@, service);
                    lemma_views_push(version_1@, service);
                    lemma_views_push(ppp@, service);
                    seen = seen.push(service@);
                }
                match service.service {
                    WanService::WanIpConnection2 => version_2.push(service),
                    WanService::WanIpConnection1 => version_1.push(service),
                    WanService::WanPppConnection1 => ppp.push(service),
                }
            },
            None => {},
        }
        from = end;
    }

    // The most capable service comes first.
    let mut services = version_2;
    let ghost v2 = services@;
    let ghost v1 = version_1@;
    let ghost v0 = ppp@;
    services.append(&mut version_1);
    services.append(&mut ppp);
    proof {
        assert(services@ == v2 + v1 + v0);
        assert(all_views(services@) =~= by_preference(all));
        lemma_by_preference_keeps_all(all);
    }
    if services.len() == 0 {
        assert(all_views(services@).len() == 0);
        return Err(InvalidResponseKind::NoWanConnectionService);
    }
    Ok((services, base))
}

/// The services and control URLs of several entries.
pub open spec fn control_urls(services: Seq<DescriptionServiceView>) -> Seq<
    (WanService, Seq<char>),
> {
    Seq::new(services.len(), |i: int| (services[i].service, services[i].control_url))
}

/// The services and texts of several pairs.
pub open spec fn pair_texts(pairs: Seq<(WanService, String)>) -> Seq<(WanService, Seq<char>)> {
    Seq::new(pairs.len(), |i: int| (pairs[i].0, pairs[i].1@))
}

/// Find the WAN connection services in a device description and their control URLs, most
/// preferred first.
pub fn parse_device_description(description: &str) -> (parsed: Result<
    (Vec<(WanService, String)>, Option<String>),
    InvalidResponseKind,
>)
    ensures
        match parsed {
            Ok((services, base)) => {
                &&& described_services(description@).len() > 0
                &&& pair_texts(services@) == control_urls(
                    by_preference(described_services(description@)),
                )
                &&& http::optional_text(base) == url_base(description@)
            },
            Err(e) => e is NoWanConnectionService && described_services(description@).len() == 0,
        },
{
    let (services, base) = match find_services(description) {
        Ok(found) => found,
        Err(e) => {
            return Err(e);
        },
    };
    let ghost expected = control_urls(all_views(services@));
    let mut pairs: Vec<(WanService, String)> = Vec::new();
    let mut i: usize = 0;
    while i < services.len()
        invariant
            i <= services@.len(),
            expected == control_urls(all_views(services@)),
            pairs@.len() == i,
            pair_texts(pairs@) == expected.take(i as int),
        decreases services@.len() - i,
    {
        let ghost before = pairs@;
        pairs.push((services[i].service, services[i].control_url.clone()));
        i += 1;
        assert(pair_texts(pairs@) =~= expected.take(i as int)) by {
            assert forall|j: int| 0 <= j < i implies #[trigger] pair_texts(pairs@)[j]
                == expected[j] by {
                if j < i - 1 {
                    assert(pair_texts(before)[j] == expected.take(i - 1)[j]);
                }
            }
        }
    }
    assert(expected.take(services@.len() as int) =~= expected);
    Ok((pairs, base))
}

/// Ordering by preference neither adds nor loses an entry.
proof fn lemma_by_preference_keeps_all(services: Seq<DescriptionServiceView>)
    ensures
        by_preference(services).to_multiset() == services.to_multiset(),
        by_preference(services).len() == services.len(),
    decreases services.len(),
{
    broadcast use vstd::seq_lib::group_to_multiset_ensures;

    reveal(Seq::filter);
    let ip2 = WanService::WanIpConnection2;
    let ip1 = WanService::WanIpConnection1;
    let ppp = WanService::WanPppConnection1;
    if services.len() == 0 {
        assert(by_preference(services) =~= services);
    } else {
        let init = services.drop_last();
        let last = services.last();
        lemma_by_preference_keeps_all(init);
        assert(init.push(last) =~= services);
        lemma_entries_push(init, last, ip2);
        lemma_entries_push(init, last, ip1);
        lemma_entries_push(init, last, ppp);
        let (a, b, c) = (entries_of(init, ip2), entries_of(init, ip1), entries_of(init, ppp));
        vstd::seq_lib::lemma_multiset_commutative(a, b);
        vstd::seq_lib::lemma_multiset_commutative(a + b, c);
        let (x, y, z) = (
            entries_of(services, ip2),
            entries_of(services, ip1),
            entries_of(services, ppp),
        );
        vstd::seq_lib::lemma_multiset_commutative(x, y);
        vstd::seq_lib::lemma_multiset_commutative(x + y, z);
        assert(by_preference(services).to_multiset() =~= by_preference(
            init,
        ).to_multiset().insert(last));
    }
}

/// Ordering by preference keeps the number of entries.
pub proof fn lemma_by_preference_length(services: Seq<DescriptionServiceView>)
    ensures
        by_preference(services).len() == services.len(),
{
    lemma_by_preference_keeps_all(services);
}

/// The entries of one service all have that service.
proof fn lemma_entries(services: Seq<DescriptionServiceView>, service: WanService)
    ensures
        forall|i: int|
            0 <= i < entries_of(services, service).len() ==> (#[trigger] entries_of(
                services,
                service,
            )[i]).service == service,
{
    broadcast use vstd::seq_lib::group_filter_ensures;

    let p = |s: DescriptionServiceView| s.service == service;
    assert forall|i: int| 0 <= i < entries_of(services, service).len() implies (
    #[trigger] entries_of(services, service)[i]).service == service by {
        assert(p(services.filter(p)[i]));
    }
}

/// Selecting the entries of a service from entries that all have it, or all lack it.
proof fn lemma_entries_uniform(
    services: Seq<DescriptionServiceView>,
    actual: WanService,
    service: WanService,
)
    requires
        forall|i: int| 0 <= i < services.len() ==> (#[trigger] services[i]).service == actual,
    ensures
        entries_of(services, service) == if actual == service {
            services
        } else {
            seq![]
        },
    decreases services.len(),
{
    reveal(Seq::filter);
    if services.len() > 0 {
        let init = services.drop_last();
        lemma_entries_uniform(init, actual, service);
        assert(services.last().service == actual);
        assert(init.push(services.last()) =~= services);
    }
}

/// Selecting the entries of a service from two lists put together.
proof fn lemma_entries_add(
    first: Seq<DescriptionServiceView>,
    second: Seq<DescriptionServiceView>,
    service: WanService,
)
    ensures
        entries_of(first + second, service) == entries_of(first, service) + entries_of(
            second,
            service,
        ),
    decreases second.len(),
{
    reveal(Seq::filter);
    if second.len() == 0 {
        assert(first + second =~= first);
        assert(entries_of(first, service) + entries_of(second, service) =~= entries_of(
            first,
            service,
        ));
    } else {
        let init = second.drop_last();
        lemma_entries_add(first, init, service);
        assert(first + second =~= (first + init).push(second.last()));
        assert(init.push(second.last()) =~= second);
        lemma_entries_push(first + init, second.last(), service);
        lemma_entries_push(init, second.last(), service);
        assert(entries_of(first + second, service) =~= entries_of(first, service) + entries_of(
            second,
            service,
        ));
    }
}

/// The services of a description are offered with the most preferred first, none is added or
/// lost, and equally preferred services keep their order.
pub proof fn law_services_are_ordered(services: Seq<DescriptionServiceView>, service: WanService)
    ensures
        by_preference(services).to_multiset() == services.to_multiset(),
        forall|i: int, j: int|
            0 <= i < j < services.len() ==> (#[trigger] by_preference(
                services,
            )[i]).service.spec_preference() >= (#[trigger] by_preference(
                services,
            )[j]).service.spec_preference(),
        entries_of(by_preference(services), service) == entries_of(services, service),
{
    let ip2 = WanService::WanIpConnection2;
    let ip1 = WanService::WanIpConnection1;
    let ppp = WanService::WanPppConnection1;
    let (a, b, c) = (
        entries_of(services, ip2),
        entries_of(services, ip1),
        entries_of(services, ppp),
    );
    lemma_by_preference_keeps_all(services);
    lemma_entries(services, ip2);
    lemma_entries(services, ip1);
    lemma_entries(services, ppp);
    lemma_entries_uniform(a, ip2, service);
    lemma_entries_uniform(b, ip1, service);
    lemma_entries_uniform(c, ppp, service);
    lemma_entries_add(a, b, service);
    lemma_entries_add(a + b, c, service);
    assert(entries_of(by_preference(services), service) =~= entries_of(services, service));
}

/// An entry of a description that names a connection service and a control URL describes that
/// service, with its URLs as they were before they were escaped. A service whose event URL is empty
/// or missing offers no events. An entry of another service, or without a control URL, describes
/// none.
#[verifier::rlimit(60)]
pub proof fn law_entries_are_read(
    service_type: Seq<char>,
    control_url: Seq<char>,
    event_url: Seq<char>,
)
    requires
        !service_type.contains('<'),
        text::is_trimmed(service_type),
        text::is_trimmed(xml::escaped(control_url)),
        text::is_trimmed(xml::escaped(event_url)),
    ensures
        ({
            let named = xml::element("serviceType"@, service_type);
            let controlled = xml::element("controlURL"@, xml::escaped(control_url));
            let evented = xml::element("eventSubURL"@, xml::escaped(event_url));
            match service::service_named(service_type) {
                Some(service) => {
                    &&& described_service(named + (controlled + evented)) == Some(
                        DescriptionServiceView {
                            service,
                            control_url,
                            event_url: if event_url.len() > 0 {
                                Some(event_url)
                            } else {
                                None
                            },
                        },
                    )
                    &&& described_service(named + controlled) == Some(
                        DescriptionServiceView { service, control_url, event_url: None },
                    )
                    &&& described_service(named) is None
                },
                None => described_service(named + (controlled + evented)) is None,
            }
        }),
{
    let s = "serviceType"@;
    let c = "controlURL"@;
    let e = "eventSubURL"@;
    let nothing: Seq<char> = seq![];
    let control = xml::escaped(control_url);
    let event = xml::escaped(event_url);
    let named = xml::element(s, service_type);
    let controlled = xml::element(c, control);
    let evented = xml::element(e, event);
    assert(xml::is_name(s) && xml::is_name(c) && xml::is_name(e) && s != c && s != e && c != e) by {
        reveal_strlit("serviceType");
        reveal_strlit("controlURL");
        reveal_strlit("eventSubURL");
        assert(s[0] == 's' && c[0] == 'c' && e[0] == 'e');
    }
    lemma_escaped(control_url);
    lemma_escaped(event_url);
    xml::law_decoding_undoes_escaping(control_url);
    xml::law_decoding_undoes_escaping(event_url);
    text::lemma_trimmed(service_type);
    text::lemma_trimmed(control);
    text::lemma_trimmed(event);
    let rest = controlled + evented;
    xml::law_elements_are_told_apart(s, s, service_type, rest);
    xml::law_elements_are_told_apart(c, s, service_type, rest);
    xml::law_elements_are_told_apart(c, c, control, evented);
    xml::law_elements_are_told_apart(e, s, service_type, rest);
    xml::law_elements_are_told_apart(e, c, control, evented);
    xml::law_elements_are_told_apart(e, e, event, nothing);
    assert(evented + nothing =~= evented);
    xml::law_elements_are_told_apart(s, s, service_type, controlled);
    xml::law_elements_are_told_apart(c, s, service_type, controlled);
    xml::law_elements_are_told_apart(c, c, control, nothing);
    xml::law_elements_are_told_apart(e, s, service_type, controlled);
    xml::law_elements_are_told_apart(e, c, control, nothing);
    xml::law_elements_are_told_apart(e, e, nothing, nothing);
    assert(controlled + nothing =~= controlled);
    xml::law_elements_are_told_apart(c, s, service_type, nothing);
    xml::law_elements_are_told_apart(c, c, nothing, nothing);
    xml::law_elements_are_told_apart(s, s, service_type, nothing);
    assert(named + nothing =~= named);
}

/// An escaped text holds no tag, and is empty exactly when the text is.
proof fn lemma_escaped(value: Seq<char>)
    ensures
        !xml::escaped(value).contains('<'),
        xml::escaped(value).len() == 0 <==> value.len() == 0,
    decreases value.len(),
{
    reveal_strlit("&lt;");
    reveal_strlit("&gt;");
    reveal_strlit("&quot;");
    reveal_strlit("&apos;");
    reveal_strlit("&amp;");
    if value.len() > 0 {
        lemma_escaped(value.skip(1));
        let first = xml::written(value[0], 0);
        let rest = xml::all_written(value.skip(1), 0);
        assert(!first.contains('<'));
        assert forall|i: int| 0 <= i < (first + rest).len() implies (first + rest)[i] != '<' by {
            if i < first.len() {
                assert((first + rest)[i] == first[i]);
                assert(first.contains(first[i]));
            } else {
                assert((first + rest)[i] == rest[i - first.len()]);
                assert(rest.contains(rest[i - first.len()]));
            }
        }
    }
}

/// The services of a description are those of its entries, in their order, whatever comes before
/// and between the entries.
#[verifier::rlimit(60)]
pub proof fn law_descriptions_are_read_entry_by_entry(
    before: Seq<char>,
    entry: Seq<char>,
    rest: Seq<char>,
)
    requires
        !before.contains('<'),
        text::find(entry + "</service>"@ + rest, "</service>"@) == Some(entry.len() as int),
    ensures
        described_services(before + "<service>"@ + entry + "</service>"@ + rest) == (
        match described_service(entry) {
            Some(service) => seq![service],
            None => seq![],
        }) + described_services("</service>"@ + rest),
        described_services(before).len() == 0,
{
    reveal_strlit("<service>");
    reveal_strlit("</service>");
    let open = "<service>"@;
    let close = "</service>"@;
    let all = before + open + entry + close + rest;
    let n = before.len() as int;
    assert(all.subrange(n, n + open.len()) =~= open);
    assert forall|j: int| 0 <= j < n implies !#[trigger] text::matches_at(all, j, open) by {
        if text::matches_at(all, j, open) {
            assert(all.subrange(j, j + open.len())[0] == all[j]);
            assert(all[j] == before[j]);
        }
    }
    text::lemma_find_is(all, open, 0, n);
    let tail = all.skip(n + open.len());
    assert(tail =~= entry + close + rest);
    assert(tail.take(entry.len() as int) =~= entry);
    assert(tail.skip(entry.len() as int) =~= close + rest);
    let more = described_services(close + rest);
    assert(seq![] + more =~= more);
    assert forall|j: int| 0 <= j implies !#[trigger] text::matches_at(before, j, open) by {
        if text::matches_at(before, j, open) {
            assert(before.subrange(j, j + open.len())[0] == before[j]);
        }
    }
    text::lemma_find_none(before, open, 0);
}

/// The base of a description is the text of its element for it, as it was before it was escaped.
pub proof fn law_base_is_read(before: Seq<char>, base: Seq<char>, rest: Seq<char>)
    requires
        !before.contains('<'),
        text::is_trimmed(xml::escaped(base)),
    ensures
        url_base(before + (xml::element("URLBase"@, xml::escaped(base)) + rest)) == Some(base),
        url_base(before) is None,
{
    let tag = "URLBase"@;
    assert(xml::is_name(tag)) by {
        reveal_strlit("URLBase");
    }
    let value = xml::escaped(base);
    let nothing: Seq<char> = seq![];
    lemma_escaped(base);
    text::lemma_trimmed(value);
    xml::law_decoding_undoes_escaping(base);
    xml::law_elements_are_told_apart(tag, tag, before, xml::element(tag, value) + rest);
    xml::law_elements_are_told_apart(tag, tag, value, rest);
}

/// The first service offered is of the most preferred kind that is described at all: the second
/// version of the IP connection service before the first, and both before the PPP connection
/// service.
#[verifier::rlimit(60)]
pub proof fn law_most_preferred_service_is_first(services: Seq<DescriptionServiceView>, i: int)
    requires
        0 <= i < services.len(),
    ensures
        ({
            let first = by_preference(services)[0].service;
            &&& by_preference(services).len() == services.len()
            &&& services[i].service is WanIpConnection2 ==> first is WanIpConnection2
            &&& services[i].service is WanIpConnection1 ==> !(first is WanPppConnection1)
        }),
{
    law_services_are_ordered(services, services[i].service);
    lemma_by_preference_keeps_all(services);
    let sorted = by_preference(services);
    assert(services.contains(services[i]));
    vstd::seq_lib::to_multiset_contains(services, services[i]);
    vstd::seq_lib::to_multiset_contains(sorted, services[i]);
    vstd::seq_lib::to_multiset_len(services);
    vstd::seq_lib::to_multiset_len(sorted);
    let k = choose|k: int| 0 <= k < sorted.len() && sorted[k] == services[i];
    service::law_ip_connections_are_preferred();
    if k > 0 {
        assert(sorted[0].service.spec_preference() >= sorted[k].service.spec_preference());
    }
}

} // verus!
