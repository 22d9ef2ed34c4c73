//! Discovering the control endpoint of a gateway.
//!
//! Discovery alternates between sending searches, waiting for responses, and following the
//! locations they name. A `Discovery` says what to do next and takes what came of it.

use vstd::prelude::*;
use vstd::string::*;

use crate::address::{GatewayAddress, IpAddr};
use crate::failures::SocketError;
use crate::options;
use crate::options::{longer_wait, upnp_config_or_default, TimeoutConfig};
use crate::scan;
use crate::scan::{chars_of, span_is};
use crate::time;
use crate::time::{Duration, Instant, MAX_DURATION_NANOS};
use crate::upnp::endpoint::ControlEndpoint;
use crate::upnp::failure::Failure;
use crate::upnp::search;
use crate::upnp::search::{read_candidate, SearchCandidate, SearchCandidateView};

verus! {

/// How long to keep collecting further search responses after the first from the gateway, in
/// nanoseconds, so that a more preferred device description (e.g. IGD version 2) can win over the
/// first to arrive.
pub const RESPONSE_GRACE_NANOS: u128 = 50_000_000;

/// The maximum number of device descriptions fetched during a single discovery,
/// as protection against misbehaving devices announcing many locations.
pub const MAX_LOCATION_ATTEMPTS: usize = 10;

/// What a discovery is waiting for.
#[derive(Clone, Copy, Debug, PartialEq, Eq, Structural)]
pub enum Phase {
    /// The searches to be sent.
    Searching,

    /// Responses to the searches.
    Collecting,

    /// A description whose location the gateway sent.
    TryingGateway,

    /// A description whose location came from another address. Gateways may answer from a
    /// different address than they are reached by, so these are a last resort.
    TryingOthers,

    /// Nothing; the discovery is over.
    Finished,
}

/// What happened to a discovery.
#[derive(Debug)]
pub enum DiscoveryEvent<'a> {
    /// The searches were sent.
    Sent,

    /// A datagram arrived.
    Datagram {
        /// The bytes of the datagram.
        datagram: &'a [u8],
        /// The address it came from.
        source: IpAddr,
    },

    /// No datagram arrived in the time given.
    Quiet,

    /// The socket failed.
    SocketFailed(SocketError),

    /// A location was followed.
    Fetched(Result<ControlEndpoint, Failure>),
}

/// What a discovery needs to be done.
#[derive(Debug)]
pub enum DiscoveryAction {
    /// Send the searches to the gateway and to the multicast group.
    Search,

    /// Wait for a datagram for the given number of nanoseconds.
    Receive { nanos: u128 },

    /// Follow a location.
    Fetch(String),

    /// Nothing more; the control endpoint was found.
    Found(ControlEndpoint),

    /// Nothing more; the discovery failed.
    Failed(Failure),
}

/// What a discovery needs to be done.
pub enum DiscoveryActionView {
    Search,
    Receive { nanos: nat },
    Fetch(Seq<char>),
    Found(ControlEndpoint),
    Failed(Failure),
}

impl View for DiscoveryAction {
    type V = DiscoveryActionView;

    open spec fn view(&self) -> DiscoveryActionView {
        match self {
            DiscoveryAction::Search => DiscoveryActionView::Search,
            DiscoveryAction::Receive { nanos } => DiscoveryActionView::Receive {
                nanos: *nanos as nat,
            },
            DiscoveryAction::Fetch(location) => DiscoveryActionView::Fetch(location@),
            DiscoveryAction::Found(endpoint) => DiscoveryActionView::Found(*endpoint),
            DiscoveryAction::Failed(failure) => DiscoveryActionView::Failed(*failure),
        }
    }
}

/// The state of a discovery.
pub struct DiscoveryView {
    pub gateway: GatewayAddress,
    pub timeout_config: TimeoutConfig,
    pub wait: Duration,
    pub retries: nat,
    pub tried: Seq<Seq<char>>,
    pub last_failure: Option<Failure>,
    pub deadline: int,
    pub commit_at: Option<int>,
    pub from_gateway: Seq<SearchCandidateView>,
    pub from_others: Seq<SearchCandidateView>,
    pub queue: Seq<SearchCandidateView>,
    pub phase: Phase,
}

/// What several candidates say.
pub open spec fn candidate_views(candidates: Seq<SearchCandidate>) -> Seq<SearchCandidateView> {
    Seq::new(candidates.len(), |i: int| candidates[i]@)
}

/// Several texts.
pub open spec fn all_texts(texts: Seq<String>) -> Seq<Seq<char>> {
    Seq::new(texts.len(), |i: int| texts[i]@)
}

/// The candidates of one version, in their order.
pub open spec fn of_version(candidates: Seq<SearchCandidateView>, version_2: bool) -> Seq<
    SearchCandidateView,
> {
    candidates.filter(|c: SearchCandidateView| c.version_2 == version_2)
}

/// The candidates in the order they are tried: version 2 devices are preferred over the order of
/// arrival.
pub open spec fn ordered(candidates: Seq<SearchCandidateView>) -> Seq<SearchCandidateView> {
    of_version(candidates, true) + of_version(candidates, false)
}

/// The location to follow next, if there is one: that of the first candidate in the queue whose
/// location was not tried yet, as long as not too many were. The queue after it and the locations
/// tried by then come with it.
pub open spec fn next_location(queue: Seq<SearchCandidateView>, tried: Seq<Seq<char>>) -> (
    Seq<SearchCandidateView>,
    Seq<Seq<char>>,
    Option<Seq<char>>,
)
    decreases queue.len(),
{
    if queue.len() == 0 {
        (queue, tried, None)
    } else if tried.contains(queue[0].location) || tried.len() >= MAX_LOCATION_ATTEMPTS {
        next_location(queue.skip(1), tried)
    } else {
        (queue.skip(1), tried.push(queue[0].location), Some(queue[0].location))
    }
}

impl DiscoveryView {
    /// When the collection of responses ends.
    pub open spec fn limit(self) -> int {
        match self.commit_at {
            Some(commit) => if commit < self.deadline {
                commit
            } else {
                self.deadline
            },
            None => self.deadline,
        }
    }

    /// A new round of searches, or the end after the last round.
    pub open spec fn round_over(self) -> (DiscoveryView, DiscoveryActionView) {
        if self.retries >= self.timeout_config.max_retries {
            (
                DiscoveryView { last_failure: None, phase: Phase::Finished, ..self },
                DiscoveryActionView::Failed(
                    match self.last_failure {
                        Some(failure) => failure,
                        None => Failure::Timeout,
                    },
                ),
            )
        } else {
            (
                DiscoveryView {
                    retries: self.retries + 1,
                    wait: Duration::spec_from_nanos(
                        options::following_wait(self.wait.spec_nanos(), self.timeout_config),
                    ),
                    phase: Phase::Searching,
                    ..self
                },
                DiscoveryActionView::Search,
            )
        }
    }

    /// Trying the candidates that came from other addresses.
    pub open spec fn trying_others(self) -> (DiscoveryView, DiscoveryActionView) {
        let (queue, tried, location) = next_location(self.queue, self.tried);
        let after = DiscoveryView { queue, tried, phase: Phase::TryingOthers, ..self };
        match location {
            Some(l) => (after, DiscoveryActionView::Fetch(l)),
            None => after.round_over(),
        }
    }

    /// Trying the candidates that the gateway sent. When none is left, responses are collected
    /// until the full window has closed, then those from other addresses are fallen back to.
    pub open spec fn trying_gateway(self, now: int) -> (DiscoveryView, DiscoveryActionView) {
        let (queue, tried, location) = next_location(self.queue, self.tried);
        let after = DiscoveryView { queue, tried, phase: Phase::TryingGateway, ..self };
        match location {
            Some(l) => (after, DiscoveryActionView::Fetch(l)),
            None => if now < self.deadline {
                (
                    DiscoveryView { commit_at: None, phase: Phase::Collecting, ..after },
                    DiscoveryActionView::Receive { nanos: (self.deadline - now) as nat },
                )
            } else {
                DiscoveryView {
                    queue: ordered(self.from_others),
                    from_others: seq![],
                    ..after
                }.trying_others()
            },
        }
    }

    /// The end of the collection of responses.
    pub open spec fn closing(self, now: int) -> (DiscoveryView, DiscoveryActionView) {
        DiscoveryView {
            queue: ordered(self.from_gateway),
            from_gateway: seq![],
            ..self
        }.trying_gateway(now)
    }

    /// Waiting for responses until the collection ends.
    pub open spec fn collecting(self, now: int) -> (DiscoveryView, DiscoveryActionView) {
        if now < self.limit() {
            (
                DiscoveryView { phase: Phase::Collecting, ..self },
                DiscoveryActionView::Receive { nanos: (self.limit() - now) as nat },
            )
        } else {
            self.closing(now)
        }
    }

    /// The state after a datagram arrived. A response from the gateway gives a more preferred
    /// one a brief chance to arrive before committing. Only responses which arrive from the
    /// gateway address are trusted directly.
    pub open spec fn received(self, datagram: Seq<u8>, source: IpAddr, now: int) -> DiscoveryView {
        match search::candidate_in(datagram) {
            Some(candidate) => if source == self.gateway.spec_ip() {
                DiscoveryView {
                    from_gateway: self.from_gateway.push(candidate),
                    commit_at: match self.commit_at {
                        Some(commit) => Some(commit),
                        None => Some(now + RESPONSE_GRACE_NANOS),
                    },
                    ..self
                }
            } else {
                DiscoveryView { from_others: self.from_others.push(candidate), ..self }
            },
            None => self,
        }
    }

    /// Whether the discovery is waiting for an event.
    pub open spec fn expects(self, event: DiscoveryEvent) -> bool {
        match event {
            DiscoveryEvent::Sent => self.phase == Phase::Searching,
            DiscoveryEvent::Datagram { .. } => self.phase == Phase::Collecting,
            DiscoveryEvent::Quiet => self.phase == Phase::Collecting,
            DiscoveryEvent::SocketFailed(_) => self.phase == Phase::Searching || self.phase
                == Phase::Collecting,
            DiscoveryEvent::Fetched(_) => self.phase == Phase::TryingGateway || self.phase
                == Phase::TryingOthers,
        }
    }

    /// The state after an event at the given time, and what is to be done next.
    pub open spec fn next(self, event: DiscoveryEvent, now: int) -> (
        DiscoveryView,
        DiscoveryActionView,
    ) {
        match event {
            DiscoveryEvent::Sent => DiscoveryView {
                deadline: now + self.wait.spec_nanos(),
                commit_at: None,
                from_gateway: seq![],
                from_others: seq![],
                ..self
            }.collecting(now),
            DiscoveryEvent::Datagram { datagram, source } => self.received(
                datagram@,
                source,
                now,
            ).collecting(now),
            DiscoveryEvent::Quiet => self.closing(now),
            DiscoveryEvent::SocketFailed(e) => (
                DiscoveryView { phase: Phase::Finished, ..self },
                DiscoveryActionView::Failed(Failure::Socket(e)),
            ),
            DiscoveryEvent::Fetched(Ok(endpoint)) => (
                DiscoveryView { phase: Phase::Finished, ..self },
                DiscoveryActionView::Found(endpoint),
            ),
            DiscoveryEvent::Fetched(Err(e)) => {
                let after = DiscoveryView { last_failure: Some(e), ..self };
                if self.phase == Phase::TryingGateway {
                    after.trying_gateway(now)
                } else {
                    after.trying_others()
                }
            },
        }
    }
}

/// The discovery of a gateway's control endpoint.
#[derive(Debug)]
pub struct Discovery {
    /// The gateway to discover.
    gateway: GatewayAddress,

    /// The configuration of the timing of searches.
    timeout_config: TimeoutConfig,

    /// How long responses to the searches of this round are collected.
    wait: Duration,

    /// The number of rounds after the first.
    retries: usize,

    /// The locations already tried.
    tried: Vec<String>,

    /// The reason the most recent location was rejected.
    last_failure: Option<Failure>,

    /// When the collection of responses ends.
    deadline: Instant,

    /// When to try the candidates the gateway sent, if it sent any.
    commit_at: Option<Instant>,

    /// The candidates the gateway sent.
    from_gateway: Vec<SearchCandidate>,

    /// The candidates that came from other addresses.
    from_others: Vec<SearchCandidate>,

    /// The candidates being tried.
    queue: Vec<SearchCandidate>,

    /// What the discovery is waiting for.
    phase: Phase,
}

impl View for Discovery {
    type V = DiscoveryView;

    closed spec fn view(&self) -> DiscoveryView {
        DiscoveryView {
            gateway: self.gateway,
            timeout_config: self.timeout_config,
            wait: self.wait,
            retries: self.retries as nat,
            tried: all_texts(self.tried@),
            last_failure: self.last_failure,
            deadline: self.deadline.nanos as int,
            commit_at: match self.commit_at {
                Some(commit) => Some(commit.nanos as int),
                None => None,
            },
            from_gateway: candidate_views(self.from_gateway@),
            from_others: candidate_views(self.from_others@),
            queue: candidate_views(self.queue@),
            phase: self.phase,
        }
    }
}

/// Whether a text is among others.
fn contains_text(texts: &Vec<String>, text: &String) -> (found: bool)
    ensures
        found == all_texts(texts@).contains(text@),
{
    let chars = chars_of(text.as_str());
    let all = scan::whole(chars.as_slice());
    let mut i: usize = 0;
    while i < texts.len()
        invariant
            i <= texts@.len(),
            chars@ == text@,
            all.within(chars@.len()),
            all.of(chars@) == text@,
            forall|j: int| 0 <= j < i ==> (#[trigger] texts@[j])@ != text@,
        decreases texts@.len() - i,
    {
        if span_is(chars.as_slice(), all, texts[i].as_str()) {
            assert(all_texts(texts@)[i as int] == text@);
            return true;
        }
        i += 1;
    }
    false
}

/// A candidate added at the end is added to those of its own version alone.
proof fn lemma_of_version_push(
    candidates: Seq<SearchCandidateView>,
    added: SearchCandidateView,
    version_2: bool,
)
    ensures
        of_version(candidates.push(added), version_2) == if added.version_2 == version_2 {
            of_version(candidates, version_2).push(added)
        } else {
            of_version(candidates, version_2)
        },
{
    reveal(Seq::filter);
    assert(candidates.push(added).drop_last() =~= candidates);
}

/// Orders candidates, preferring version 2 devices over the order of arrival.
fn order_candidates(candidates: &Vec<SearchCandidate>) -> (sorted: Vec<SearchCandidate>)
    ensures
        candidate_views(sorted@) == ordered(candidate_views(candidates@)),
{
    let ghost views = candidate_views(candidates@);
    let mut preferred: Vec<SearchCandidate> = Vec::new();
    let mut others: Vec<SearchCandidate> = Vec::new();
    let mut i: usize = 0;
    proof {
        reveal(Seq::filter);
        assert(candidate_views(preferred@) =~= of_version(views.take(0), true));
        assert(candidate_views(others@) =~= of_version(views.take(0), false));
    }
    while i < candidates.len()
        invariant
            i <= candidates@.len(),
            views == candidate_views(candidates@),
            candidate_views(preferred@) == of_version(views.take(i as int), true),
            candidate_views(others@) == of_version(views.take(i as int), false),
        decreases candidates@.len() - i,
    {
        let candidate = SearchCandidate {
            version_2: candidates[i].version_2,
            location: candidates[i].location.clone(),
        };
        proof {
            assert(views[i as int] == candidate@);
            assert(views.take(i + 1) =~= views.take(i as int).push(candidate@));
            lemma_of_version_push(views.take(i as int), candidate@, true);
            lemma_of_version_push(views.take(i as int), candidate@, false);
            assert(candidate_views(preferred@.push(candidate)) =~= candidate_views(
                preferred@,
            ).push(candidate@));
            assert(candidate_views(others@.push(candidate)) =~= candidate_views(others@).push(
                candidate@,
            ));
        }
        if candidate.version_2 {
            preferred.push(candidate);
        } else {
            others.push(candidate);
        }
        i += 1;
    }
    assert(views.take(candidates@.len() as int) =~= views);
    let ghost first = preferred@;
    let ghost second = others@;
    preferred.append(&mut others);
    assert(candidate_views(preferred@) =~= candidate_views(first) + candidate_views(second));
    preferred
}

impl Discovery {
    /// A discovery of the control endpoint of a gateway, which begins with sending searches.
    pub fn new(gateway: GatewayAddress, timeout_config: Option<TimeoutConfig>) -> (discovery:
        Discovery)
        ensures
            discovery@ == (DiscoveryView {
                gateway,
                timeout_config: options::upnp_config(timeout_config),
                wait: options::upnp_config(timeout_config).initial_timeout,
                retries: 0,
                tried: seq![],
                last_failure: None,
                deadline: 0,
                commit_at: None,
                from_gateway: seq![],
                from_others: seq![],
                queue: seq![],
                phase: Phase::Searching,
            }),
    {
        let config = upnp_config_or_default(timeout_config);
        let discovery = Discovery {
            gateway,
            timeout_config: config,
            wait: config.initial_timeout,
            retries: 0,
            tried: Vec::new(),
            last_failure: None,
            deadline: Instant { nanos: 0 },
            commit_at: None,
            from_gateway: Vec::new(),
            from_others: Vec::new(),
            queue: Vec::new(),
            phase: Phase::Searching,
        };
        proof {
            assert(discovery@.tried =~= seq![]);
            assert(discovery@.from_gateway =~= seq![]);
            assert(discovery@.from_others =~= seq![]);
            assert(discovery@.queue =~= seq![]);
        }
        discovery
    }

    /// Takes the next location to follow from the queue.
    fn take_location(&mut self) -> (location: Option<String>)
        ensures
            ({
                let (queue, tried, next) = next_location(old(self)@.queue, old(self)@.tried);
                &&& final(self)@ == (DiscoveryView { queue, tried, ..old(self)@ })
                &&& match location {
                    Some(l) => next == Some(l@),
                    None => next is None,
                }
            }),
    {
        let ghost before = self@;
        while self.queue.len() > 0
            invariant
                before == old(self)@,
                self@ == (DiscoveryView { queue: self@.queue, ..before }),
                next_location(self@.queue, self@.tried) == next_location(
                    before.queue,
                    before.tried,
                ),
            decreases self.queue@.len(),
        {
            let ghost queue = self@.queue;
            let ghost tried = self@.tried;
            let candidate = self.queue.remove(0);
            assert(candidate_views(self.queue@) =~= queue.skip(1));
            assert(queue[0] == candidate@);
            if self.tried.len() < MAX_LOCATION_ATTEMPTS && !contains_text(
                &self.tried,
                &candidate.location,
            ) {
                self.tried.push(candidate.location.clone());
                assert(all_texts(self.tried@) =~= tried.push(candidate@.location));
                return Some(candidate.location);
            }
        }
        None
    }

    /// Starts a new round of searches, or ends the discovery after the last round.
    fn end_round(&mut self) -> (action: DiscoveryAction)
        requires
            old(self)@.wait.spec_nanos() * 2 <= MAX_DURATION_NANOS,
        ensures
            (final(self)@, action@) == old(self)@.round_over(),
    {
        // Retry on timeout up to `max_retries` times.
        if self.retries >= self.timeout_config.max_retries {
            self.phase = Phase::Finished;
            let failure = self.last_failure.take();
            return match failure {
                Some(failure) => DiscoveryAction::Failed(failure),
                None => DiscoveryAction::Failed(Failure::Timeout),
            };
        }
        self.retries = self.retries + 1;
        self.phase = Phase::Searching;
        self.wait = longer_wait(self.wait, &self.timeout_config);
        DiscoveryAction::Search
    }

    /// Tries the candidates that came from other addresses.
    fn try_others(&mut self) -> (action: DiscoveryAction)
        requires
            old(self)@.wait.spec_nanos() * 2 <= MAX_DURATION_NANOS,
        ensures
            (final(self)@, action@) == old(self)@.trying_others(),
    {
        self.phase = Phase::TryingOthers;
        match self.take_location() {
            Some(location) => DiscoveryAction::Fetch(location),
            None => self.end_round(),
        }
    }

    /// Tries the candidates that the gateway sent.
    fn try_gateway(&mut self, now: Instant) -> (action: DiscoveryAction)
        requires
            old(self)@.wait.spec_nanos() * 2 <= MAX_DURATION_NANOS,
        ensures
            (final(self)@, action@) == old(self)@.trying_gateway(now.nanos as int),
    {
        self.phase = Phase::TryingGateway;
        match self.take_location() {
            Some(location) => DiscoveryAction::Fetch(location),
            None => {
                // Keep collecting until the full window has closed, then fall back to
                // responses from other addresses.
                if now.nanos < self.deadline.nanos {
                    self.commit_at = None;
                    self.phase = Phase::Collecting;
                    DiscoveryAction::Receive { nanos: self.deadline.nanos - now.nanos }
                } else {
                    self.queue = order_candidates(&self.from_others);
                    self.from_others = Vec::new();
                    assert(self@.from_others =~= seq![]);
                    self.try_others()
                }
            },
        }
    }

    /// Ends the collection of responses.
    fn close(&mut self, now: Instant) -> (action: DiscoveryAction)
        requires
            old(self)@.wait.spec_nanos() * 2 <= MAX_DURATION_NANOS,
        ensures
            (final(self)@, action@) == old(self)@.closing(now.nanos as int),
    {
        self.queue = order_candidates(&self.from_gateway);
        self.from_gateway = Vec::new();
        assert(self@.from_gateway =~= seq![]);
        self.try_gateway(now)
    }

    /// Waits for responses until the collection ends.
    fn collect(&mut self, now: Instant) -> (action: DiscoveryAction)
        requires
            old(self)@.wait.spec_nanos() * 2 <= MAX_DURATION_NANOS,
        ensures
            (final(self)@, action@) == old(self)@.collecting(now.nanos as int),
    {
        let limit: u128 = match self.commit_at {
            Some(commit) => if commit.nanos < self.deadline.nanos {
                commit.nanos
            } else {
                self.deadline.nanos
            },
            None => self.deadline.nanos,
        };
        if now.nanos < limit {
            self.phase = Phase::Collecting;
            DiscoveryAction::Receive { nanos: limit - now.nanos }
        } else {
            self.close(now)
        }
    }

    /// Takes a datagram that arrived.
    fn take_datagram(&mut self, datagram: &[u8], source: IpAddr, now: Instant)
        requires
            now.is_early(),
        ensures
            final(self)@ == old(self)@.received(datagram@, source, now.nanos as int),
    {
        let candidate = match read_candidate(datagram) {
            Some(candidate) => candidate,
            None => {
                return;
            },
        };
        if source == IpAddr::from(self.gateway) {
            // Give a more preferred response a brief chance to arrive before committing.
            if self.commit_at.is_none() {
                self.commit_at = Some(Instant { nanos: now.nanos + RESPONSE_GRACE_NANOS });
            }
            self.from_gateway.push(candidate);
            assert(self@.from_gateway =~= old(self)@.from_gateway.push(candidate@));
        } else {
            self.from_others.push(candidate);
            assert(self@.from_others =~= old(self)@.from_others.push(candidate@));
        }
    }

    /// How long responses to the searches of this round are collected.
    pub fn wait(&self) -> (wait: Duration)
        ensures
            wait == self@.wait,
    {
        self.wait
    }

    /// Takes what happened at the given time, and says what to do next. The time that a further
    /// round would be given must not exceed the longest duration.
    pub fn step(&mut self, event: DiscoveryEvent, now: Instant) -> (action: DiscoveryAction)
        requires
            old(self)@.expects(event),
            now.is_early(),
            old(self)@.wait.spec_nanos() * 2 <= MAX_DURATION_NANOS,
        ensures
            (final(self)@, action@) == old(self)@.next(event, now.nanos as int),
    {
        match event {
            DiscoveryEvent::Sent => {
                self.deadline = now.after(self.wait);
                self.commit_at = None;
                self.from_gateway = Vec::new();
                self.from_others = Vec::new();
                proof {
                    assert(self@.from_gateway =~= seq![]);
                    assert(self@.from_others =~= seq![]);
                }
                self.collect(now)
            },
            DiscoveryEvent::Datagram { datagram, source } => {
                self.take_datagram(datagram, source, now);
                self.collect(now)
            },
            DiscoveryEvent::Quiet => self.close(now),
            DiscoveryEvent::SocketFailed(e) => {
                self.phase = Phase::Finished;
                DiscoveryAction::Failed(Failure::Socket(e))
            },
            DiscoveryEvent::Fetched(Ok(endpoint)) => {
                self.phase = Phase::Finished;
                DiscoveryAction::Found(endpoint)
            },
            DiscoveryEvent::Fetched(Err(e)) => {
                // A response may name a device without a usable WAN connection service
                // (e.g., for the generic search targets), so keep trying further candidates on failure.
                self.last_failure = Some(e);
                if self.phase == Phase::TryingGateway {
                    self.try_gateway(now)
                } else {
                    self.try_others()
                }
            },
        }
    }
}

impl DiscoveryView {
    /// No location is tried twice, and not too many are. No more rounds are started than allowed.
    pub open spec fn wf(self) -> bool {
        &&& self.tried.no_duplicates()
        &&& self.tried.len() <= MAX_LOCATION_ATTEMPTS
        &&& self.retries <= self.timeout_config.max_retries
    }
}

/// A location to follow was not tried before, and is tried from then on.
proof fn lemma_next_location(queue: Seq<SearchCandidateView>, tried: Seq<Seq<char>>)
    ensures
        ({
            let (rest, after, location) = next_location(queue, tried);
            match location {
                Some(l) => {
                    &&& after == tried.push(l)
                    &&& !tried.contains(l)
                    &&& tried.len() < MAX_LOCATION_ATTEMPTS
                    &&& exists|i: int| 0 <= i < queue.len() && (#[trigger] queue[i]).location == l
                },
                None => {
                    &&& after == tried
                    &&& rest.len() == 0
                    &&& tried.len() < MAX_LOCATION_ATTEMPTS ==> forall|i: int|
                        0 <= i < queue.len() ==> tried.contains((#[trigger] queue[i]).location)
                },
            }
        }),
    decreases queue.len(),
{
    if queue.len() > 0 {
        let tail = queue.skip(1);
        lemma_next_location(tail, tried);
        if tried.contains(queue[0].location) || tried.len() >= MAX_LOCATION_ATTEMPTS {
            match next_location(tail, tried).2 {
                Some(l) => {
                    let i = choose|i: int|
                        0 <= i < tail.len() && (#[trigger] tail[i]).location == l;
                    assert(queue[i + 1].location == l);
                },
                None => {
                    if tried.len() < MAX_LOCATION_ATTEMPTS {
                        assert forall|i: int| 0 <= i < queue.len() implies tried.contains(
                            (#[trigger] queue[i]).location,
                        ) by {
                            if i > 0 {
                                assert(tail[i - 1] == queue[i]);
                            }
                        }
                    }
                },
            }
        }
    }
}

/// A discovery never follows a location twice, follows no more of them than allowed, and sends
/// its searches no more often than once more than retries are allowed.
pub proof fn law_discovery_is_bounded(before: DiscoveryView, event: DiscoveryEvent, now: int)
    requires
        before.wf(),
        before.expects(event),
    ensures
        ({
            let (after, action) = before.next(event, now);
            &&& after.wf()
            &&& match action {
                DiscoveryActionView::Fetch(location) => {
                    &&& !before.tried.contains(location)
                    &&& after.tried == before.tried.push(location)
                },
                _ => after.tried == before.tried,
            }
            &&& match action {
                DiscoveryActionView::Search => after.retries == before.retries + 1,
                _ => after.retries == before.retries,
            }
        }),
{
    lemma_next_location(before.queue, before.tried);
    lemma_next_location(ordered(before.from_gateway), before.tried);
    lemma_next_location(ordered(before.from_others), before.tried);
    lemma_next_location(ordered(seq![]), before.tried);
    if let DiscoveryEvent::Datagram { datagram, source } = event {
        let received = before.received(datagram@, source, now);
        lemma_next_location(ordered(received.from_gateway), before.tried);
        lemma_next_location(ordered(received.from_others), before.tried);
    }
}

/// After a round without success the searches are given twice the time, but no more than the
/// configured maximum. Otherwise the time stays the same.
pub proof fn law_wait_doubles_up_to_maximum(
    before: DiscoveryView,
    event: DiscoveryEvent,
    now: int,
)
    requires
        before.expects(event),
        before.wait.spec_nanos() * 2 <= MAX_DURATION_NANOS,
        before.timeout_config.max_retry_timeout matches Some(max) ==> max.spec_nanos()
            <= MAX_DURATION_NANOS,
    ensures
        ({
            let (after, action) = before.next(event, now);
            if action is Search {
                &&& after.wait.spec_nanos() == options::following_wait(
                    before.wait.spec_nanos(),
                    before.timeout_config,
                )
                &&& before.timeout_config.max_retry_timeout matches Some(max)
                    ==> after.wait.spec_nanos() <= max.spec_nanos()
            } else {
                after.wait == before.wait
            }
        }),
{
    broadcast use time::lemma_spec_from_nanos;

}

/// A discovery fails when the socket does, or after the last round. Then the failure is the reason
/// why the last location that was followed was rejected, or a timeout if none was.
pub proof fn law_last_failure_is_reported(before: DiscoveryView, event: DiscoveryEvent, now: int)
    requires
        before.expects(event),
        before.next(event, now).1 is Failed,
    ensures
        ({
            let failure = before.next(event, now).1->Failed_0;
            match event {
                DiscoveryEvent::SocketFailed(e) => failure == Failure::Socket(e),
                DiscoveryEvent::Fetched(Err(e)) => failure == e && before.retries
                    >= before.timeout_config.max_retries,
                _ => failure == (match before.last_failure {
                    Some(e) => e,
                    None => Failure::Timeout,
                }) && before.retries >= before.timeout_config.max_retries,
            }
        }),
{
}

/// The candidates sent by the gateway that are left to try when an event happens.
pub open spec fn gateway_candidates(before: DiscoveryView, event: DiscoveryEvent, now: int) -> Seq<
    SearchCandidateView,
> {
    match event {
        DiscoveryEvent::Sent => seq![],
        DiscoveryEvent::Datagram { datagram, source } => ordered(
            before.received(datagram@, source, now).from_gateway,
        ),
        DiscoveryEvent::Fetched(_) => before.queue,
        _ => ordered(before.from_gateway),
    }
}

/// Locations that came from other addresses than the gateway are followed only after the time to
/// collect responses is over, and after the locations that the gateway sent, unless too many
/// were tried already.
pub proof fn law_other_addresses_are_a_last_resort(
    before: DiscoveryView,
    event: DiscoveryEvent,
    now: int,
)
    requires
        before.expects(event),
        before.phase != Phase::TryingOthers,
        before.next(event, now).0.phase == Phase::TryingOthers,
    ensures
        before.next(event, now).0.deadline <= now,
        before.tried.len() < MAX_LOCATION_ATTEMPTS ==> forall|i: int|
            0 <= i < gateway_candidates(before, event, now).len() ==> before.tried.contains(
                (#[trigger] gateway_candidates(before, event, now)[i]).location,
            ),
{
    let sent = gateway_candidates(before, event, now);
    lemma_next_location(sent, before.tried);
    if event is Sent {
        reveal(Seq::filter);
        assert(ordered(seq![]) =~= sent);
    }
}

/// The candidates of one version all have that version.
proof fn lemma_of_version(candidates: Seq<SearchCandidateView>, version_2: bool)
    ensures
        forall|i: int|
            0 <= i < of_version(candidates, version_2).len() ==> (#[trigger] of_version(
                candidates,
                version_2,
            )[i]).version_2 == version_2,
{
    broadcast use vstd::seq_lib::group_filter_ensures;

    let p = |c: SearchCandidateView| c.version_2 == version_2;
    assert forall|i: int| 0 <= i < of_version(candidates, version_2).len() implies (
    #[trigger] of_version(candidates, version_2)[i]).version_2 == version_2 by {
        assert(p(candidates.filter(p)[i]));
    }
}

/// Ordering candidates neither adds nor loses one.
proof fn lemma_ordered_keeps_all(candidates: Seq<SearchCandidateView>)
    ensures
        ordered(candidates).to_multiset() == candidates.to_multiset(),
    decreases candidates.len(),
{
    broadcast use vstd::seq_lib::group_to_multiset_ensures;

    reveal(Seq::filter);
    if candidates.len() == 0 {
        assert(ordered(candidates) =~= candidates);
    } else {
        let init = candidates.drop_last();
        let last = candidates.last();
        lemma_ordered_keeps_all(init);
        assert(init.push(last) =~= candidates);
        lemma_of_version_push(init, last, true);
        lemma_of_version_push(init, last, false);
        vstd::seq_lib::lemma_multiset_commutative(of_version(init, true), of_version(init, false));
        vstd::seq_lib::lemma_multiset_commutative(
            of_version(candidates, true),
            of_version(candidates, false),
        );
        assert(ordered(candidates).to_multiset() =~= ordered(init).to_multiset().insert(last));
    }
}

/// Candidates naming a version 2 device are tried before the others, and none is added or lost.
pub proof fn law_version_2_is_tried_first(candidates: Seq<SearchCandidateView>)
    ensures
        ordered(candidates).to_multiset() == candidates.to_multiset(),
        forall|i: int, j: int|
            0 <= i < j < ordered(candidates).len() && (#[trigger] ordered(candidates)[j]).version_2
                ==> (#[trigger] ordered(candidates)[i]).version_2,
{
    lemma_ordered_keeps_all(candidates);
    lemma_of_version(candidates, true);
    lemma_of_version(candidates, false);
}

/// The location followed next is the first in the queue that was not followed before, unless ten
/// were. What stands before it in the queue is dropped with it.
pub proof fn law_first_new_location_is_followed(
    queue: Seq<SearchCandidateView>,
    tried: Seq<Seq<char>>,
    i: int,
)
    ensures
        tried.len() < 10 && 0 <= i < queue.len() && !tried.contains(queue[i].location) && (forall|
            j: int,
        |
            0 <= j < i ==> tried.contains((#[trigger] queue[j]).location)) ==> next_location(
            queue,
            tried,
        ) == (queue.skip(i + 1), tried.push(queue[i].location), Some(queue[i].location)),
        tried.len() >= 10 || (forall|j: int|
            0 <= j < queue.len() ==> tried.contains((#[trigger] queue[j]).location))
            ==> next_location(queue, tried) == (
            Seq::<SearchCandidateView>::empty(),
            tried,
            None::<Seq<char>>,
        ),
    decreases queue.len(),
{
    if queue.len() == 0 {
        assert(queue =~= Seq::<SearchCandidateView>::empty());
    } else {
        let tail = queue.skip(1);
        assert(forall|j: int| 0 <= j < tail.len() ==> tail[j] == queue[j + 1]);
        assert(forall|j: int| 1 <= j < queue.len() ==> queue[j] == tail[j - 1]);
        law_first_new_location_is_followed(tail, tried, i - 1);
        if 0 < i < queue.len() {
            assert(tail.skip(i) =~= queue.skip(i + 1));
        }
    }
}

/// Once the searches of a round are sent, responses are waited for as long as the round lasts, and
/// those to earlier searches are forgotten.
pub proof fn law_responses_are_waited_for(before: DiscoveryView, now: int)
    requires
        before.expects(DiscoveryEvent::Sent),
        before.wait.spec_nanos() > 0,
    ensures
        ({
            let (after, action) = before.next(DiscoveryEvent::Sent, now);
            &&& action == DiscoveryActionView::Receive { nanos: before.wait.spec_nanos() as nat }
            &&& after.deadline == now + before.wait.spec_nanos()
            &&& after.phase == Phase::Collecting
            &&& after.commit_at is None
            &&& after.from_gateway.len() == 0 && after.from_others.len() == 0
            &&& after.tried == before.tried && after.retries == before.retries
            &&& after.last_failure == before.last_failure
        }),
{
}

/// The first response from the gateway leaves fifty milliseconds for a more preferred one, but no
/// more than the round lasts. Later ones do not prolong that, and neither does what comes from
/// another address, which is kept apart. What is no response is ignored.
pub proof fn law_first_response_leaves_time_for_others(
    before: DiscoveryView,
    datagram: &[u8],
    source: IpAddr,
    now: int,
)
    requires
        before.expects(DiscoveryEvent::Datagram { datagram, source }),
        now < before.deadline,
        before.commit_at matches Some(commit) ==> now < commit,
    ensures
        ({
            let (after, action) = before.next(DiscoveryEvent::Datagram { datagram, source }, now);
            let from_gateway = source == before.gateway.spec_ip();
            let until = |end: int|
                DiscoveryActionView::Receive {
                    nanos: (if end < before.deadline {
                        end - now
                    } else {
                        before.deadline - now
                    }) as nat,
                };
            &&& after.phase == Phase::Collecting
            &&& after.deadline == before.deadline
            &&& after.tried == before.tried
            &&& search::candidate_in(datagram@) is None ==> after.from_gateway
                == before.from_gateway && after.from_others == before.from_others
                && after.commit_at == before.commit_at
            &&& search::candidate_in(datagram@) matches Some(candidate) ==> {
                &&& from_gateway ==> after.from_gateway == before.from_gateway.push(candidate)
                    && after.from_others == before.from_others
                &&& !from_gateway ==> after.from_gateway == before.from_gateway
                    && after.from_others == before.from_others.push(candidate)
                &&& from_gateway && before.commit_at is None ==> action == until(now + 50_000_000)
                &&& !from_gateway && before.commit_at is None ==> action == until(before.deadline)
            }
            &&& before.commit_at matches Some(commit) ==> action == until(commit)
                && after.commit_at == Some(commit)
        }),
{
}

/// When no further response comes, the gateway's own are followed, those of version 2 devices
/// first. If it sent none that is new, responses are waited for until the round is over.
pub proof fn law_gateway_responses_are_followed(before: DiscoveryView, now: int, i: int)
    requires
        before.expects(DiscoveryEvent::Quiet),
        before.tried.len() < 10,
        0 <= i < before.from_gateway.len(),
        !before.tried.contains(before.from_gateway[i].location),
    ensures
        ({
            let (after, action) = before.next(DiscoveryEvent::Quiet, now);
            let sent = before.from_gateway;
            &&& after.phase == Phase::TryingGateway
            &&& action matches DiscoveryActionView::Fetch(location) && exists|k: int|
                0 <= k < sent.len() && (#[trigger] sent[k]).location == location && (
                sent[i].version_2 ==> sent[k].version_2)
        }),
{
    let sent = before.from_gateway;
    let queue = ordered(sent);
    law_version_2_is_tried_first(sent);
    lemma_same_elements(queue, sent);
    assert(sent.contains(sent[i]));
    assert(queue.contains(sent[i]));
    let k = choose|k: int| 0 <= k < queue.len() && queue[k] == sent[i];
    let first = lemma_first_new(queue, before.tried, k);
    law_first_new_location_is_followed(queue, before.tried, first);
    assert(queue.contains(queue[first]));
    assert(sent.contains(queue[first]));
    let m = choose|m: int| 0 <= m < sent.len() && sent[m] == queue[first];
    assert(sent[m].location == queue[first].location);
}

/// Two sequences with the same multiset have the same elements.
proof fn lemma_same_elements(a: Seq<SearchCandidateView>, b: Seq<SearchCandidateView>)
    requires
        a.to_multiset() == b.to_multiset(),
    ensures
        forall|c: SearchCandidateView| #[trigger] a.contains(c) <==> b.contains(c),
{
    assert forall|c: SearchCandidateView| #[trigger] a.contains(c) <==> b.contains(c) by {
        vstd::seq_lib::to_multiset_contains(a, c);
        vstd::seq_lib::to_multiset_contains(b, c);
    }
}

/// Among locations of which one is new there is a first new one.
proof fn lemma_first_new(queue: Seq<SearchCandidateView>, tried: Seq<Seq<char>>, i: int) -> (first:
    int)
    requires
        0 <= i < queue.len(),
        !tried.contains(queue[i].location),
    ensures
        0 <= first <= i,
        !tried.contains(queue[first].location),
        forall|j: int| 0 <= j < first ==> tried.contains((#[trigger] queue[j]).location),
    decreases i,
{
    if exists|j: int| 0 <= j < i && !tried.contains((#[trigger] queue[j]).location) {
        let j = choose|j: int| 0 <= j < i && !tried.contains((#[trigger] queue[j]).location);
        lemma_first_new(queue, tried, j)
    } else {
        i
    }
}

/// A discovery ends with the first endpoint found, and with the first failure of the socket.
pub proof fn law_first_endpoint_is_found(
    before: DiscoveryView,
    endpoint: ControlEndpoint,
    error: SocketError,
    now: int,
)
    ensures
        before.next(DiscoveryEvent::Fetched(Ok(endpoint)), now).1 == DiscoveryActionView::Found(
            endpoint,
        ),
        before.next(DiscoveryEvent::Fetched(Ok(endpoint)), now).0.phase == Phase::Finished,
        before.next(DiscoveryEvent::SocketFailed(error), now).1 == DiscoveryActionView::Failed(
            Failure::Socket(error),
        ),
        before.next(DiscoveryEvent::SocketFailed(error), now).0.phase == Phase::Finished,
{
}

/// A location that leads nowhere is no end: the next new one that the gateway sent is followed.
/// When there is none, responses are waited for until the round is over, or once it is, those from
/// other addresses are followed.
pub proof fn law_failed_locations_are_passed_over(
    before: DiscoveryView,
    failure: Failure,
    now: int,
    i: int,
)
    requires
        before.expects(DiscoveryEvent::Fetched(Err(failure))),
        before.tried.len() < 10,
    ensures
        ({
            let (after, action) = before.next(DiscoveryEvent::Fetched(Err(failure)), now);
            let is_first_new = |queue: Seq<SearchCandidateView>|
                0 <= i < queue.len() && !before.tried.contains(queue[i].location) && (forall|
                    j: int,
                |
                    0 <= j < i ==> before.tried.contains((#[trigger] queue[j]).location));
            let exhausted = forall|j: int|
                0 <= j < before.queue.len() ==> before.tried.contains(
                    (#[trigger] before.queue[j]).location,
                );
            &&& is_first_new(before.queue) ==> action == DiscoveryActionView::Fetch(
                before.queue[i].location,
            ) && after.phase == before.phase && after.last_failure == Some(failure)
            &&& exhausted && before.phase == Phase::TryingGateway && now < before.deadline
                ==> action == (DiscoveryActionView::Receive {
                nanos: (before.deadline - now) as nat,
            }) && after.phase == Phase::Collecting && after.from_others == before.from_others
                && after.commit_at is None && after.last_failure == Some(failure)
            &&& exhausted && before.phase == Phase::TryingGateway && now >= before.deadline
                && is_first_new(ordered(before.from_others)) ==> action
                == DiscoveryActionView::Fetch(ordered(before.from_others)[i].location)
                && after.phase == Phase::TryingOthers
        }),
{
    law_first_new_location_is_followed(before.queue, before.tried, i);
    law_first_new_location_is_followed(ordered(before.from_others), before.tried, i);
}

/// When the last location of a round leads nowhere, the searches are sent again for twice the time,
/// up to the longest configured, as often as configured. After that the discovery fails for the
/// last reason.
pub proof fn law_rounds_follow_each_other(before: DiscoveryView, failure: Failure, now: int)
    requires
        before.expects(DiscoveryEvent::Fetched(Err(failure))),
        before.phase == Phase::TryingOthers,
        before.queue.len() == 0,
        before.wait.spec_nanos() * 2 <= MAX_DURATION_NANOS,
        before.timeout_config.max_retry_timeout matches Some(max) ==> max.spec_nanos()
            <= MAX_DURATION_NANOS,
    ensures
        ({
            let (after, action) = before.next(DiscoveryEvent::Fetched(Err(failure)), now);
            let twice = before.wait.spec_nanos() * 2;
            if before.retries < before.timeout_config.max_retries {
                &&& action is Search
                &&& after.phase == Phase::Searching
                &&& after.retries == before.retries + 1
                &&& after.wait.spec_nanos() == match before.timeout_config.max_retry_timeout {
                    Some(max) => if max.spec_nanos() < twice {
                        max.spec_nanos() as int
                    } else {
                        twice as int
                    },
                    None => twice as int,
                }
            } else {
                &&& action == DiscoveryActionView::Failed(failure)
                &&& after.phase == Phase::Finished
            }
        }),
{
    broadcast use time::lemma_spec_from_nanos;

}

/// What an action brings about is what the discovery waits for: the searches being sent, a response
/// or none, a location being followed, or a failure of the socket.
pub proof fn law_actions_are_waited_for(
    before: DiscoveryView,
    event: DiscoveryEvent,
    now: int,
    datagram: &[u8],
    source: IpAddr,
    error: SocketError,
    fetched: Result<ControlEndpoint, Failure>,
)
    requires
        before.expects(event),
    ensures
        ({
            let (after, action) = before.next(event, now);
            match action {
                DiscoveryActionView::Search => {
                    &&& after.expects(DiscoveryEvent::Sent)
                    &&& after.expects(DiscoveryEvent::SocketFailed(error))
                },
                DiscoveryActionView::Receive { nanos } => {
                    &&& after.expects(DiscoveryEvent::Datagram { datagram, source })
                    &&& after.expects(DiscoveryEvent::Quiet)
                    &&& after.expects(DiscoveryEvent::SocketFailed(error))
                },
                DiscoveryActionView::Fetch(_) => after.expects(DiscoveryEvent::Fetched(fetched)),
                _ => {
                    &&& !after.expects(DiscoveryEvent::Sent)
                    &&& !after.expects(DiscoveryEvent::Quiet)
                    &&& !after.expects(DiscoveryEvent::SocketFailed(error))
                    &&& !after.expects(DiscoveryEvent::Fetched(fetched))
                },
            }
        }),
{
}

/// Waiting always takes some time, and ends no later than the round and, once the gateway has
/// responded, no later than the time left for others.
pub proof fn law_waits_end(before: DiscoveryView, event: DiscoveryEvent, now: int)
    requires
        before.expects(event),
    ensures
        ({
            let (after, action) = before.next(event, now);
            action matches DiscoveryActionView::Receive { nanos } ==> {
                &&& nanos > 0
                &&& now + nanos <= after.deadline
                &&& after.commit_at matches Some(commit) ==> now + nanos <= commit
            }
        }),
{
}

} // verus!
