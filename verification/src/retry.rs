//! Retry policy with capped exponential backoff, and the classification of
//! transcription errors into retryable and terminal ones.

use vstd::prelude::*;
use crate::text::{contains, lowercase, str_contains, str_to_lowercase};
use crate::math::{lemma_two_pow_monotone, two_pow};

verus! {

/// Errors reported by a transcription provider.
#[derive(Debug, Clone)]
pub enum SttError {
    /// The request did not reach the service or the connection broke.
    Network(String),
    /// The request timed out.
    Timeout,
    /// The service answered with an error.
    Api(String),
    /// The audio could not be decoded or processed.
    Audio(String),
    /// The provider is misconfigured.
    Config(String),
}

/// Configuration for retry behavior. Delays are in milliseconds.
#[derive(Debug, Clone, Copy, PartialEq, Eq, Structural)]
pub struct RetryConfig {
    /// Maximum number of retry attempts after the first try.
    pub max_retries: u32,
    /// Delay before the first retry; doubles with each attempt.
    pub initial_delay_ms: u64,
    /// Upper bound of the delay between retries.
    pub max_delay_ms: u64,
    /// Whether to retry on rate limit errors.
    pub retry_on_rate_limit: bool,
}

/// What to do after a failed attempt.
#[derive(Debug, Clone, Copy, PartialEq, Eq, Structural)]
pub enum RetryDecision {
    /// Return the error to the caller.
    GiveUp,
    /// Sleep for the given number of milliseconds, then try again.
    RetryAfter(u64),
}

/// The backoff before retry number `attempt` (0-indexed):
/// `min(initial * 2^attempt, max)`.
pub open spec fn backoff_delay(initial: nat, max: nat, attempt: nat) -> nat {
    if initial * two_pow(attempt) <= max {
        initial * two_pow(attempt)
    } else {
        max
    }
}

/// Whether an API error message carries a server-error signal: one of the
/// status codes 500, 502, 503 and 504.
pub open spec fn has_server_error_signal(msg: Seq<char>) -> bool {
    ||| contains(msg, "500"@)
    ||| contains(msg, "502"@)
    ||| contains(msg, "503"@)
    ||| contains(msg, "504"@)
}

/// Whether an API error message carries a rate-limit signal: the status
/// code 429, or the words `rate limit` or `too many requests` in any case.
pub open spec fn has_rate_limit_signal(msg: Seq<char>) -> bool {
    ||| contains(msg, "429"@)
    ||| contains(lowercase(msg), "rate limit"@)
    ||| contains(lowercase(msg), "too many requests"@)
}

/// Whether an error is worth another attempt when rate-limit responses are
/// retried (`retry_on_rate_limit`) or not: network errors and timeouts
/// always; API errors with a server-error signal, or with a rate-limit
/// signal if those are retried; audio and configuration errors never.
pub open spec fn retryable_when(error: SttError, retry_on_rate_limit: bool) -> bool {
    match error {
        SttError::Network(_) => true,
        SttError::Timeout => true,
        SttError::Api(msg) => has_server_error_signal(msg@) || (retry_on_rate_limit
            && has_rate_limit_signal(msg@)),
        SttError::Audio(_) => false,
        SttError::Config(_) => false,
    }
}

/// Whether an error is worth another attempt under a policy that retries
/// rate-limit responses.
pub open spec fn retryable(error: SttError) -> bool {
    retryable_when(error, true)
}

/// The decision after failed attempt number `attempt` (0-indexed) ended in
/// `error`.
pub open spec fn retry_step(config: RetryConfig, attempt: nat, error: SttError) -> RetryDecision {
    if retryable_when(error, config.retry_on_rate_limit) && attempt < config.max_retries {
        RetryDecision::RetryAfter(
            backoff_delay(
                config.initial_delay_ms as nat,
                config.max_delay_ms as nat,
                attempt,
            ) as u64,
        )
    } else {
        RetryDecision::GiveUp
    }
}

/// The backoff is monotonically non-decreasing in the attempt index and never
/// exceeds the cap.
pub proof fn lemma_backoff_monotone(initial: nat, max: nat, a: nat, b: nat)
    requires
        a <= b,
    ensures
        backoff_delay(initial, max, a) <= backoff_delay(initial, max, b) <= max,
{
    lemma_two_pow_monotone(a, b);
    assert(initial * two_pow(a) <= initial * two_pow(b)) by (nonlinear_arith)
        requires
            two_pow(a) <= two_pow(b),
    ;
}

/// The delay of a retry policy never decreases from one attempt to a later
/// one and never exceeds the maximum delay.
pub proof fn lemma_delay_monotone(config: RetryConfig, earlier: u32, later: u32)
    requires
        earlier <= later,
    ensures
        config.delay_for_attempt(earlier) <= config.delay_for_attempt(later)
            <= config.max_delay_ms,
{
    lemma_backoff_monotone(
        config.initial_delay_ms as nat,
        config.max_delay_ms as nat,
        earlier as nat,
        later as nat,
    );
}

/// After `max_retries` retries the policy gives up whatever the error, so an
/// operation is attempted at most `max_retries + 1` times; a terminal error
/// ends it at once.
pub proof fn lemma_attempts_bounded(config: RetryConfig, attempt: nat, error: SttError)
    ensures
        attempt >= config.max_retries ==> retry_step(config, attempt, error)
            == RetryDecision::GiveUp,
        !retryable_when(error, config.retry_on_rate_limit) ==> retry_step(config, attempt, error)
            == RetryDecision::GiveUp,
        retryable_when(error, config.retry_on_rate_limit) && attempt < config.max_retries
            ==> retry_step(config, attempt, error) == RetryDecision::RetryAfter(
            backoff_delay(
                config.initial_delay_ms as nat,
                config.max_delay_ms as nat,
                attempt,
            ) as u64,
        ),
{
}

/// Once the doubled delay reaches the cap it stays there.
proof fn lemma_backoff_capped(initial: nat, max: nat, i: nat, attempt: nat)
    requires
        i <= attempt,
        initial * two_pow(i) >= max,
    ensures
        backoff_delay(initial, max, attempt) == max,
{
    lemma_two_pow_monotone(i, attempt);
    assert(initial * two_pow(i) <= initial * two_pow(attempt)) by (nonlinear_arith)
        requires
            two_pow(i) <= two_pow(attempt),
    ;
}

impl Default for RetryConfig {
    fn default() -> (c: Self)
        ensures
            c == (RetryConfig {
                max_retries: 3,
                initial_delay_ms: 500,
                max_delay_ms: 10_000,
                retry_on_rate_limit: true,
            }),
    {
        RetryConfig {
            max_retries: 3,
            initial_delay_ms: 500,
            max_delay_ms: 10_000,
            retry_on_rate_limit: true,
        }
    }
}

impl RetryConfig {
    /// The delay in milliseconds before retry number `attempt`.
    pub open spec fn spec_delay_for_attempt(&self, attempt: u32) -> u64 {
        backoff_delay(self.initial_delay_ms as nat, self.max_delay_ms as nat, attempt as nat) as u64
    }

    /// Create a retry config with custom max retries and default delays.
    pub fn with_max_retries(max_retries: u32) -> (c: Self)
        ensures
            c == (RetryConfig {
                max_retries,
                initial_delay_ms: 500,
                max_delay_ms: 10_000,
                retry_on_rate_limit: true,
            }),
    {
        RetryConfig {
            max_retries,
            initial_delay_ms: 500,
            max_delay_ms: 10_000,
            retry_on_rate_limit: true,
        }
    }

    /// Calculate the delay for a given attempt number (0-indexed), in
    /// milliseconds: the initial delay doubled `attempt` times, capped at the
    /// maximum delay.
    #[verifier::when_used_as_spec(spec_delay_for_attempt)]
    pub fn delay_for_attempt(&self, attempt: u32) -> (d: u64)
        ensures
            d == backoff_delay(
                self.initial_delay_ms as nat,
                self.max_delay_ms as nat,
                attempt as nat,
            ),
            d == self.spec_delay_for_attempt(attempt),
    {
        let initial: u64 = self.initial_delay_ms;
        let max: u64 = self.max_delay_ms;
        if initial == 0 {
            assert(0 * two_pow(attempt as nat) == 0) by (nonlinear_arith);
            return 0;
        }
        let mut d: u64 = initial;
        let mut i: u32 = 0;
        assert(initial * two_pow(0) == initial) by (nonlinear_arith)
            requires
                two_pow(0) == 1,
        ;
        while i < attempt && d < max
            invariant
                i <= attempt,
                initial == self.initial_delay_ms,
                max == self.max_delay_ms,
                d == initial * two_pow(i as nat),
            decreases attempt - i,
        {
            if d >= max - d {
                proof {
                    assert(initial * two_pow((i + 1) as nat) == 2 * (initial * two_pow(i as nat)))
                        by (nonlinear_arith)
                        requires
                            two_pow((i + 1) as nat) == 2 * two_pow(i as nat),
                    ;
                    lemma_backoff_capped(initial as nat, max as nat, (i + 1) as nat, attempt as nat);
                }
                return max;
            }
            proof {
                assert(initial * two_pow((i + 1) as nat) == 2 * (initial * two_pow(i as nat)))
                    by (nonlinear_arith)
                    requires
                        two_pow((i + 1) as nat) == 2 * two_pow(i as nat),
                ;
            }
            d = d * 2;
            i = i + 1;
        }
        if d >= max {
            proof {
                lemma_backoff_capped(initial as nat, max as nat, i as nat, attempt as nat);
            }
            max
        } else {
            d
        }
    }

    /// Whether this policy retries after `error`: as `is_retryable_error`
    /// says, except that a rate-limit signal counts only if
    /// `retry_on_rate_limit` is set.
    pub fn retries(&self, error: &SttError) -> (b: bool)
        ensures
            b == retryable_when(*error, self.retry_on_rate_limit),
    {
        retryable_error(error, self.retry_on_rate_limit)
    }

    /// Decide what follows failed attempt number `attempt` (0-indexed): give
    /// up on an error the policy does not retry or when no retries remain,
    /// otherwise back off.
    pub fn decide(&self, attempt: u32, error: &SttError) -> (d: RetryDecision)
        ensures
            d == retry_step(*self, attempt as nat, *error),
    {
        if attempt < self.max_retries && self.retries(error) {
            RetryDecision::RetryAfter(self.delay_for_attempt(attempt))
        } else {
            RetryDecision::GiveUp
        }
    }
}

/// Classify an error, counting a rate-limit signal only if asked to.
fn retryable_error(error: &SttError, retry_on_rate_limit: bool) -> (b: bool)
    ensures
        b == retryable_when(*error, retry_on_rate_limit),
{
    match error {
        SttError::Network(_) => true,
        SttError::Timeout => true,
        SttError::Api(msg) => {
            let text = msg.as_str();
            if str_contains(text, "500") || str_contains(text, "502") || str_contains(text, "503")
                || str_contains(text, "504") {
                true
            } else if retry_on_rate_limit {
                let lower = str_to_lowercase(text);
                str_contains(text, "429") || str_contains(lower.as_str(), "rate limit")
                    || str_contains(lower.as_str(), "too many requests")
            } else {
                false
            }
        },
        SttError::Audio(_) => false,
        SttError::Config(_) => false,
    }
}

/// Determines if an error is retryable where rate-limit responses are
/// retried. A policy applies its own `retry_on_rate_limit` in `retries`.
pub fn is_retryable_error(error: &SttError) -> (b: bool)
    ensures
        b == retryable(*error),
{
    retryable_error(error, true)
}

} // verus!
