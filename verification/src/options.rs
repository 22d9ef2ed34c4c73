//! The options of port mapping requests.

use vstd::arithmetic::power2;
use vstd::prelude::*;

use crate::address::NonZeroU16;
use crate::time;
use crate::time::{Duration, NANOS_PER_SECOND};
use crate::upnp::SEARCH_WINDOW_SECONDS;

verus! {

// The RFC for NAT-PMP states that connections SHOULD make up to 9 attempts, <https://www.rfc-editor.org/rfc/rfc6886#section-3.1> page 6.
// The RFC for PCP states that connections SHOULD make attempts without a limit, <https://www.rfc-editor.org/rfc/rfc6887#section-8.1.1> page 22.
// However, that would be largely impractical so we set a sane default of 3 retries after the first attempt fails.
/// The number of retries after a first attempt, unless configured otherwise.
pub const SANE_MAX_REQUEST_RETRIES: usize = 3;

/// Configuration of the timing of UDP requests to the gateway.
#[derive(Clone, Copy, Debug)]
pub struct TimeoutConfig {
    /// The initial timeout for the first request. In general, the timeout will be doubled on each successive retry.
    pub initial_timeout: Duration,

    /// The maximum number of retries to attempt before giving up.
    /// Note that the first request is not considered a retry.
    pub max_retries: usize,

    /// The maximum timeout to use for a retry.
    pub max_retry_timeout: Option<Duration>,
}

/// Optional configuration values for a port mapping request.
#[derive(Clone, Copy, Debug)]
pub struct PortMappingOptions {
    /// The external port to try to map. The server is not guaranteed to use this port.
    pub external_port: Option<NonZeroU16>,

    /// The lifetime of the port mapping in seconds. The server is not guaranteed to use this lifetime.
    pub lifetime_seconds: Option<u32>,

    /// The configuration of the timing of UDP requests made to the gateway.
    pub timeout_config: Option<TimeoutConfig>,
}

impl Default for PortMappingOptions {
    fn default() -> (options: Self)
        ensures
            options.external_port is None,
            options.lifetime_seconds is None,
            options.timeout_config is None,
    {
        PortMappingOptions { external_port: None, lifetime_seconds: None, timeout_config: None }
    }
}

/// The `TimeoutConfig` used for the PCP attempt of the protocol fallback chain when none is given.
pub open spec fn spec_chain_pcp_timeout_config() -> TimeoutConfig {
    TimeoutConfig {
        initial_timeout: Duration::spec_from_nanos(500_000_000),
        max_retries: SANE_MAX_REQUEST_RETRIES,
        max_retry_timeout: None,
    }
}

/// The `TimeoutConfig` used for the PCP attempt of the protocol fallback chain when none is given.
/// Uses a shorter initial timeout than the RFC-flavored default of PCP, since
/// gateways on the local network respond within milliseconds and the chain has fallback
/// protocols left to attempt.
pub fn chain_pcp_timeout_config() -> (config: TimeoutConfig)
    ensures
        config == spec_chain_pcp_timeout_config(),
{
    TimeoutConfig {
        initial_timeout: Duration::from_millis(500),
        max_retries: SANE_MAX_REQUEST_RETRIES,
        max_retry_timeout: None,
    }
}

/// The default `TimeoutConfig` for UPnP requests.
pub open spec fn spec_timeout_config_default() -> TimeoutConfig {
    TimeoutConfig {
        initial_timeout: Duration::spec_from_nanos(
            (SEARCH_WINDOW_SECONDS * NANOS_PER_SECOND) as nat,
        ),
        max_retries: SANE_MAX_REQUEST_RETRIES,
        max_retry_timeout: Some(
            Duration::spec_from_nanos((SEARCH_WINDOW_SECONDS * NANOS_PER_SECOND) as nat),
        ),
    }
}

/// The default `TimeoutConfig` for UPnP requests.
/// The initial timeout matches the `MX` response window given in SSDP search requests, and
/// retries are not delayed further, since a compliant device responds within the `MX` window.
/// TCP exchanges with the gateway are made once, with a total timeout of
/// `initial_timeout * (max_retries + 1)`, since TCP performs its own retransmission.
pub fn timeout_config_default() -> (config: TimeoutConfig)
    ensures
        config == spec_timeout_config_default(),
{
    TimeoutConfig {
        initial_timeout: Duration::from_secs(SEARCH_WINDOW_SECONDS),
        max_retries: SANE_MAX_REQUEST_RETRIES,
        max_retry_timeout: Some(Duration::from_secs(SEARCH_WINDOW_SECONDS)),
    }
}

/// The configuration for a UPnP request, the default unless one is given.
pub open spec fn upnp_config(given: Option<TimeoutConfig>) -> TimeoutConfig {
    match given {
        Some(config) => config,
        None => spec_timeout_config_default(),
    }
}

/// The configuration for a UPnP request, the default unless one is given.
pub fn upnp_config_or_default(given: Option<TimeoutConfig>) -> (config: TimeoutConfig)
    ensures
        config == upnp_config(given),
{
    match given {
        Some(config) => config,
        None => timeout_config_default(),
    }
}

/// The number of nanoseconds of the total timeout of a TCP exchange: the time a first request
/// and its retries would be allowed, where the number of requests and the time are limited to
/// the largest that can be represented.
pub open spec fn tcp_timeout_nanos(config: TimeoutConfig) -> int {
    let requests: int = if config.max_retries < u32::MAX {
        config.max_retries + 1
    } else {
        u32::MAX as int
    };
    let nanos = config.initial_timeout.spec_nanos() * requests;
    if nanos <= time::MAX_DURATION_NANOS {
        nanos
    } else {
        time::MAX_DURATION_NANOS as int
    }
}

/// The total timeout to use for a TCP exchange with the gateway.
/// TCP performs its own retransmission, so requests are made once using the time
/// the `TimeoutConfig` would allow a first request and its retries.
pub fn tcp_timeout(timeout_config: TimeoutConfig) -> (timeout: Duration)
    ensures
        timeout.spec_nanos() == tcp_timeout_nanos(timeout_config),
{
    let requests: u32 = if timeout_config.max_retries < u32::MAX as usize {
        timeout_config.max_retries as u32 + 1
    } else {
        u32::MAX
    };
    timeout_config.initial_timeout.saturating_mul(requests)
}

/// The time, in nanoseconds, to wait for a response to the retry after a request that was given
/// the given time: twice as long, limited to the configured maximum.
pub open spec fn following_wait(wait: nat, config: TimeoutConfig) -> nat {
    match config.max_retry_timeout {
        Some(max) => if wait * 2 > max.spec_nanos() {
            max.spec_nanos()
        } else {
            wait * 2
        },
        None => wait * 2,
    }
}

/// The time to wait for a response to the retry after a request that was given the given time.
pub fn longer_wait(wait: Duration, config: &TimeoutConfig) -> (longer: Duration)
    requires
        wait.spec_nanos() * 2 <= time::MAX_DURATION_NANOS,
    ensures
        longer.spec_nanos() == following_wait(wait.spec_nanos(), *config),
        longer == Duration::spec_from_nanos(following_wait(wait.spec_nanos(), *config)),
{
    let doubled = match wait.checked_double() {
        Some(doubled) => doubled,
        None => wait,
    };

    // Limit the timeout to the configured maximum.
    let longer = match config.max_retry_timeout {
        Some(max) => if doubled.exceeds(&max) {
            max
        } else {
            doubled
        },
        None => doubled,
    };
    proof {
        longer.lemma_spec_from_nanos_of();
    }
    longer
}

/// The time, in nanoseconds, to wait for a response to a request after the given number of
/// retries.
pub open spec fn nth_wait(config: TimeoutConfig, retries: nat) -> nat
    decreases retries,
{
    if retries == 0 {
        config.initial_timeout.spec_nanos()
    } else {
        following_wait(nth_wait(config, (retries - 1) as nat), config)
    }
}

/// The time to wait doubles with each retry. Once there is a maximum, no retry waits longer.
pub proof fn law_wait_doubles(config: TimeoutConfig, retries: nat)
    ensures
        match config.max_retry_timeout {
            None => nth_wait(config, retries) == config.initial_timeout.spec_nanos() * power2::pow2(
                retries,
            ),
            Some(max) => retries > 0 ==> nth_wait(config, retries) == (if
            config.initial_timeout.spec_nanos() * power2::pow2(retries) > max.spec_nanos() {
                max.spec_nanos()
            } else {
                config.initial_timeout.spec_nanos() * power2::pow2(retries)
            }),
        },
    decreases retries,
{
    let initial = config.initial_timeout.spec_nanos();
    power2::lemma2_to64();
    if retries == 0 {
        assert(initial * power2::pow2(retries) == initial) by (nonlinear_arith)
            requires
                power2::pow2(retries) == 1,
        ;
    } else {
        let before = (retries - 1) as nat;
        law_wait_doubles(config, before);
        power2::lemma_pow2_unfold(retries);
        assert(initial * power2::pow2(retries) == (initial * power2::pow2(before)) * 2)
            by (nonlinear_arith)
            requires
                power2::pow2(retries) == 2 * power2::pow2(before),
        ;
        assert(nth_wait(config, retries) == following_wait(nth_wait(config, before), config));
        if before == 0 {
            assert(initial * power2::pow2(before) == initial) by (nonlinear_arith)
                requires
                    power2::pow2(before) == 1,
            ;
        }
    }
}

/// The default timing of UPnP requests waits for two seconds, which no retry exceeds, and retries
/// three times. That of the PCP attempt waits for half a second at first. Any timing that is given
/// is used as it is.
pub proof fn law_default_timing(given: TimeoutConfig)
    ensures
        upnp_config(Some(given)) == given,
        upnp_config(None).initial_timeout.spec_nanos() == 2_000_000_000,
        upnp_config(None).max_retries == 3,
        upnp_config(None).max_retry_timeout matches Some(max) && max.spec_nanos() == 2_000_000_000,
        spec_chain_pcp_timeout_config().initial_timeout.spec_nanos() == 500_000_000,
        spec_chain_pcp_timeout_config().max_retries == 3,
        spec_chain_pcp_timeout_config().max_retry_timeout is None,
{
    broadcast use time::lemma_spec_from_nanos;

}

/// A TCP exchange is given the time of a first request and all its retries, as far as that can be
/// represented.
pub proof fn law_exchanges_are_given_the_time_of_all_requests(config: TimeoutConfig)
    ensures
        ({
            let total = config.initial_timeout.spec_nanos() * (config.max_retries + 1);
            &&& config.max_retries < 0xFFFF_FFFF && total <= time::MAX_DURATION_NANOS
                ==> tcp_timeout_nanos(config) == total
            &&& config.max_retries < 0xFFFF_FFFF && total > time::MAX_DURATION_NANOS
                ==> tcp_timeout_nanos(config) == time::MAX_DURATION_NANOS
            &&& tcp_timeout_nanos(config) <= time::MAX_DURATION_NANOS
        }),
{
}

} // verus!
