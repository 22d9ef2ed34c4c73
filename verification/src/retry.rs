//! Sending a request until it is answered.

use vstd::prelude::*;

use crate::failures::SocketError;
use crate::options;
use crate::options::{longer_wait, TimeoutConfig};
use crate::time;
use crate::time::Duration;

verus! {

/// Why a request went without a response.
#[derive(Debug)]
pub enum RequestSendError {
    /// Failed to send or receive data on the socket.
    Socket(SocketError),

    /// The gateway could not be reached after all retries.
    Timeout,
}

/// What came of sending a request and waiting for a response.
#[derive(Debug)]
pub enum Attempt {
    /// A response of the given number of bytes was received.
    Received(usize),

    /// No response was received in time.
    TimedOut,

    /// The socket failed.
    Failed(SocketError),
}

/// What follows an attempt.
#[derive(Debug)]
pub enum RetryStep {
    /// The request is to be sent again.
    Retry,

    /// There is nothing more to send.
    Done(Result<usize, RequestSendError>),
}

/// A request which is sent until it is answered, retrying on timeout up to `max_retries` times.
#[derive(Debug)]
pub struct Request {
    /// The configuration of the timing of the request.
    pub timeout_config: TimeoutConfig,

    /// How long to wait for a response.
    pub wait: Duration,

    /// The number of times the request was sent after the first.
    pub retries: usize,
}

/// Whether a function on timeouts leaves them as they are.
pub open spec fn is_identity<F: Fn(Duration) -> Duration>(fuzz_timeout: F) -> bool {
    forall|given: Duration, fuzzed: Duration|
        #[trigger] call_ensures(fuzz_timeout, (given,), fuzzed) ==> fuzzed == given
}

impl Request {
    /// Whether the time to wait is that of the configured schedule, without any fuzzing.
    pub open spec fn is_on_schedule(self) -> bool {
        self.wait.spec_nanos() == options::nth_wait(self.timeout_config, self.retries as nat)
    }

    /// A request which was not sent yet. `fuzz_timeout` is given the timeout to be used for a
    /// request and may modify it, to avoid synchronization issues.
    pub fn new<F: Fn(Duration) -> Duration>(
        timeout_config: TimeoutConfig,
        fuzz_timeout: &F,
    ) -> (request: Request)
        requires
            call_requires(*fuzz_timeout, (timeout_config.initial_timeout,)),
        ensures
            request.timeout_config == timeout_config,
            request.retries == 0,
            call_ensures(*fuzz_timeout, (timeout_config.initial_timeout,), request.wait),
            is_identity(*fuzz_timeout) ==> request.is_on_schedule(),
    {
        Request {
            timeout_config,
            wait: fuzz_timeout(timeout_config.initial_timeout),
            retries: 0,
        }
    }

    /// Take what came of an attempt. Use the specified initial timeout and double it on each
    /// successive failure, with optional fuzzing. Fuzzing is done after applying the maximum
    /// timeout. Twice the timeout must not exceed the longest duration.
    pub fn try_send_until_response<F: Fn(Duration) -> Duration>(
        &mut self,
        attempt: Attempt,
        fuzz_timeout: &F,
    ) -> (step: RetryStep)
        requires
            attempt is TimedOut && old(self).retries < old(self).timeout_config.max_retries ==> {
                &&& old(self).wait.spec_nanos() * 2 <= time::MAX_DURATION_NANOS
                &&& call_requires(
                    *fuzz_timeout,
                    (Duration::spec_from_nanos(
                        options::following_wait(
                            old(self).wait.spec_nanos(),
                            old(self).timeout_config,
                        ),
                    ),),
                )
            },
        ensures
            final(self).timeout_config == old(self).timeout_config,
            old(self).is_on_schedule() && is_identity(*fuzz_timeout)
                ==> final(self).is_on_schedule(),
            match attempt {
                Attempt::Received(n) => *final(self) == *old(self) && step == RetryStep::Done(
                    Ok(n),
                ),
                Attempt::Failed(e) => *final(self) == *old(self) && step == RetryStep::Done(
                    Err(RequestSendError::Socket(e)),
                ),
                Attempt::TimedOut => if old(self).retries
                    < old(self).timeout_config.max_retries {
                    &&& step is Retry
                    &&& final(self).retries == old(self).retries + 1
                    &&& call_ensures(
                        *fuzz_timeout,
                        (Duration::spec_from_nanos(
                            options::following_wait(
                                old(self).wait.spec_nanos(),
                                old(self).timeout_config,
                            ),
                        ),),
                        final(self).wait,
                    )
                } else {
                    *final(self) == *old(self) && step == RetryStep::Done(
                        Err(RequestSendError::Timeout),
                    )
                },
            },
    {
        match attempt {
            // Return the number of bytes read from the response.
            Attempt::Received(n) => RetryStep::Done(Ok(n)),

            // Retry on timeout up to `max_retries` times.
            Attempt::TimedOut => {
                if self.retries >= self.timeout_config.max_retries {
                    return RetryStep::Done(Err(RequestSendError::Timeout));
                }
                self.retries = self.retries + 1;

                // Both NAT-PMP and PCP have a base scaling of doubling the timeout each retry.
                let longer = longer_wait(self.wait, &self.timeout_config);
                self.wait = fuzz_timeout(longer);
                RetryStep::Retry
            },

            // Any other error is returned immediately.
            Attempt::Failed(e) => RetryStep::Done(Err(RequestSendError::Socket(e))),
        }
    }
}

} // verus!
