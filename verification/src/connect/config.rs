//! Client configuration: retries with backoff, response caching and the
//! client's settings.
//!
//! Durations are whole milliseconds; clock readings are nanoseconds on a
//! clock of the caller's choice.

use crate::text::owned;
use vstd::prelude::*;

verus! {

/// How failed requests are retried.
#[derive(Debug, Clone)]
pub struct RetryConfig {
    /// Retries after the first attempt.
    pub max_retries: u32,
    /// Delay before the first retry, in milliseconds.
    pub base_delay_ms: u64,
    /// Longest delay between two attempts, in milliseconds.
    pub max_delay_ms: u64,
    /// Whether the delay doubles with each retry.
    pub exponential_backoff: bool,
}

impl Default for RetryConfig {
    /// Three retries, starting at 200 ms, doubling, at most 5 s apart.
    fn default() -> (c: Self)
        ensures
            c.max_retries == 3,
            c.base_delay_ms == 200,
            c.max_delay_ms == 5000,
            c.exponential_backoff,
    {
        RetryConfig {
            max_retries: 3,
            base_delay_ms: 200,
            max_delay_ms: 5000,
            exponential_backoff: true,
        }
    }
}

/// Two to the power `n`.
pub open spec fn pow2(n: nat) -> nat
    decreases n,
{
    if n == 0 {
        1
    } else {
        2 * pow2((n - 1) as nat)
    }
}

/// Delay before retry number `attempt + 1`, in milliseconds: with
/// exponential backoff the base delay doubled `attempt` times, capped at the
/// maximum; else the base delay.
pub open spec fn retry_delay_ms(c: RetryConfig, attempt: nat) -> nat {
    if c.exponential_backoff {
        if (c.base_delay_ms as nat) * pow2(attempt) <= c.max_delay_ms {
            (c.base_delay_ms as nat) * pow2(attempt)
        } else {
            c.max_delay_ms as nat
        }
    } else {
        c.base_delay_ms as nat
    }
}

proof fn lemma_pow2_bound(n: nat)
    ensures
        pow2(n) >= 1,
    decreases n,
{
    if n > 0 {
        lemma_pow2_bound((n - 1) as nat);
    }
}

proof fn lemma_pow2_monotone(a: nat, b: nat)
    requires
        a <= b,
    ensures
        pow2(a) <= pow2(b),
    decreases b,
{
    if a < b {
        lemma_pow2_monotone(a, (b - 1) as nat);
        lemma_pow2_bound((b - 1) as nat);
    }
}

impl RetryConfig {
    /// Delay before retry number `attempt + 1`, in milliseconds; the doubled
    /// delay saturates at the maximum however many retries there are.
    pub fn retry_delay(&self, attempt: u32) -> (d: u64)
        ensures
            d == retry_delay_ms(*self, attempt as nat),
    {
        if !self.exponential_backoff {
            return self.base_delay_ms;
        }
        if attempt >= 64 {
            proof {
                lemma_pow2_bound(attempt as nat);
                assert(self.base_delay_ms > 0 ==> (self.base_delay_ms as nat) * pow2(attempt as nat)
                    >= pow2(attempt as nat)) by (nonlinear_arith)
                    requires
                        pow2(attempt as nat) >= 1,
                ;
                lemma_pow2_monotone(64, attempt as nat);
                lemma_pow2_64();
            }
            if self.base_delay_ms == 0 {
                return 0;
            } else {
                return self.max_delay_ms;
            }
        }
        let factor: u64 = 1u64 << attempt;
        assert(factor == pow2(attempt as nat)) by {
            lemma_shift_is_pow2(attempt as u64);
        }
        assert(factor <= 0x8000_0000_0000_0000u64) by (bit_vector)
            requires
                factor == 1u64 << attempt,
                attempt < 64,
        ;
        assert((self.base_delay_ms as u128) * (factor as u128) <= 0xffff_ffff_ffff_ffffu128
            * 0x8000_0000_0000_0000u128) by (nonlinear_arith)
            requires
                factor <= 0x8000_0000_0000_0000u64,
        ;
        let product: u128 = (self.base_delay_ms as u128) * (factor as u128);
        assert(product == self.base_delay_ms * pow2(attempt as nat)) by (nonlinear_arith)
            requires
                product == (self.base_delay_ms as u128) * (factor as u128),
                factor == pow2(attempt as nat),
        ;
        if product <= self.max_delay_ms as u128 {
            product as u64
        } else {
            self.max_delay_ms
        }
    }
}

proof fn lemma_pow2_64()
    ensures
        pow2(64) == 0x1_0000_0000_0000_0000,
{
    reveal_with_fuel(pow2, 65);
}

proof fn lemma_shift_is_pow2(n: u64)
    requires
        n < 64,
    ensures
        (1u64 << n) == pow2(n as nat),
    decreases n,
{
    if n == 0 {
        assert((1u64 << 0u64) == 1) by (bit_vector);
    } else {
        lemma_shift_is_pow2((n - 1) as u64);
        assert((1u64 << n) == 2 * (1u64 << ((n - 1) as u64))) by (bit_vector)
            requires
                0 < n < 64,
        ;
    }
}

/// With exponential backoff the delay never exceeds the maximum, and a later
/// retry never waits less than an earlier one while the base delay is within
/// the maximum.
pub proof fn lemma_retry_delay_bounded_and_monotone(c: RetryConfig, a: nat, b: nat)
    requires
        c.exponential_backoff,
        a <= b,
    ensures
        retry_delay_ms(c, a) <= c.max_delay_ms,
        c.base_delay_ms <= c.max_delay_ms ==> retry_delay_ms(c, a) <= retry_delay_ms(c, b),
{
    lemma_pow2_monotone(a, b);
    assert(c.base_delay_ms * pow2(a) <= c.base_delay_ms * pow2(b)) by (nonlinear_arith)
        requires
            pow2(a) <= pow2(b),
    ;
}

/// What to do after an attempt.
#[derive(Debug, Clone, Copy, PartialEq, Eq, Structural)]
pub enum RetryAction {
    /// Keep the response.
    Accept,
    /// Try again after this many milliseconds.
    Retry(u64),
    /// Give up with the error.
    Fail,
}

/// Outcome of one attempt to send a request.
#[derive(Debug, Clone, Copy, PartialEq, Eq, Structural)]
pub enum AttemptOutcome {
    /// A response arrived with this HTTP status code.
    Response(u16),
    /// No response: the request could not be sent or received.
    TransportError,
}

/// Whether an attempt failed in a way worth retrying: a transport error, a
/// server error (5xx) or rate limiting (429).
pub open spec fn outcome_is_failure(o: AttemptOutcome) -> bool {
    match o {
        AttemptOutcome::Response(code) => (500 <= code < 600) || code == 429,
        AttemptOutcome::TransportError => true,
    }
}

/// The action that follows an outcome at attempt `attempt`.
pub open spec fn retry_step(c: RetryConfig, attempt: nat, o: AttemptOutcome) -> RetryAction {
    if !outcome_is_failure(o) {
        RetryAction::Accept
    } else if attempt < c.max_retries {
        RetryAction::Retry(retry_delay_ms(c, attempt) as u64)
    } else {
        RetryAction::Fail
    }
}

/// Every server error (any code from 500 to 599), rate limiting (429) and a
/// transport error counts as a failed attempt, and nothing else does: such
/// an attempt is retried after the backoff delay while retries are left and
/// fails the request once they are spent, while any other response, 2xx,
/// 3xx or a 4xx other than 429, is accepted at once.
pub proof fn lemma_failures_are_retried(c: RetryConfig, attempt: nat, code: u16)
    ensures
        outcome_is_failure(AttemptOutcome::Response(code)) <==> (500 <= code <= 599 || code
            == 429),
        outcome_is_failure(AttemptOutcome::TransportError),
        (500 <= code <= 599 || code == 429) && attempt < c.max_retries ==> retry_step(
            c,
            attempt,
            AttemptOutcome::Response(code),
        ) == RetryAction::Retry(retry_delay_ms(c, attempt) as u64),
        (500 <= code <= 599 || code == 429) && attempt >= c.max_retries ==> retry_step(
            c,
            attempt,
            AttemptOutcome::Response(code),
        ) == RetryAction::Fail,
        !(500 <= code <= 599 || code == 429) ==> retry_step(c, attempt, AttemptOutcome::Response(code))
            == RetryAction::Accept,
        attempt < c.max_retries ==> retry_step(c, attempt, AttemptOutcome::TransportError)
            is Retry,
{
}

/// The number of attempts made when the outcomes come in order from attempt
/// `attempt`: each retry leads to one more attempt, and an accepted or
/// failed request makes none.
pub open spec fn attempts_made(c: RetryConfig, attempt: nat, outcomes: Seq<AttemptOutcome>) -> nat
    decreases outcomes.len(),
{
    if outcomes.len() == 0 {
        0
    } else {
        match retry_step(c, attempt, outcomes[0]) {
            RetryAction::Retry(_) => 1 + attempts_made(c, attempt + 1, outcomes.drop_first()),
            _ => 1,
        }
    }
}

/// The milliseconds waited between the attempts made when the outcomes come
/// in order from attempt `attempt`.
pub open spec fn time_waited(c: RetryConfig, attempt: nat, outcomes: Seq<AttemptOutcome>) -> nat
    decreases outcomes.len(),
{
    if outcomes.len() == 0 {
        0
    } else {
        match retry_step(c, attempt, outcomes[0]) {
            RetryAction::Retry(_) => retry_delay_ms(c, attempt) + time_waited(
                c,
                attempt + 1,
                outcomes.drop_first(),
            ),
            _ => 0,
        }
    }
}

/// However the attempts turn out, a request is sent at most
/// `max_retries + 1` times, and with exponential backoff the waits between
/// attempts add up to at most `max_retries` times the maximum delay.
pub proof fn lemma_retries_bounded(c: RetryConfig, outcomes: Seq<AttemptOutcome>)
    ensures
        attempts_made(c, 0, outcomes) <= c.max_retries + 1,
        c.exponential_backoff ==> time_waited(c, 0, outcomes) <= c.max_retries * c.max_delay_ms,
{
    lemma_retries_bounded_from(c, 0, outcomes);
}

proof fn lemma_retries_bounded_from(c: RetryConfig, attempt: nat, outcomes: Seq<AttemptOutcome>)
    requires
        attempt <= c.max_retries,
    ensures
        attempts_made(c, attempt, outcomes) <= c.max_retries - attempt + 1,
        c.exponential_backoff ==> time_waited(c, attempt, outcomes) <= (c.max_retries - attempt)
            * c.max_delay_ms,
    decreases outcomes.len(),
{
    if outcomes.len() > 0 {
        if retry_step(c, attempt, outcomes[0]) is Retry {
            lemma_retries_bounded_from(c, attempt + 1, outcomes.drop_first());
            if c.exponential_backoff {
                lemma_retry_delay_bounded_and_monotone(c, attempt, attempt);
                let k = c.max_retries - attempt;
                assert((k - 1) * c.max_delay_ms + c.max_delay_ms == k * c.max_delay_ms)
                    by (nonlinear_arith);
            }
        } else {
            assert(0 <= (c.max_retries - attempt) * c.max_delay_ms) by (nonlinear_arith)
                requires
                    attempt <= c.max_retries,
            ;
        }
    } else {
        assert(0 <= (c.max_retries - attempt) * c.max_delay_ms) by (nonlinear_arith)
            requires
                attempt <= c.max_retries,
        ;
    }
}

/// Retry state of one request: the number of the current attempt.
#[derive(Debug, Clone)]
pub struct RetryState {
    /// Attempt being made, counting from zero.
    pub attempt: u32,
}

impl RetryState {
    /// The state before the first attempt.
    pub fn new() -> (s: Self)
        ensures
            s.attempt == 0,
    {
        RetryState { attempt: 0 }
    }

    /// Decides what follows an attempt's outcome: a response that is no
    /// server error and no rate limiting is accepted; a failure is retried
    /// after the backoff delay while retries are left, else the request
    /// fails. A retry moves on to the next attempt.
    pub fn on_outcome(&mut self, config: &RetryConfig, outcome: AttemptOutcome) -> (a: RetryAction)
        ensures
            a == retry_step(*config, old(self).attempt as nat, outcome),
            !outcome_is_failure(outcome) ==> a == RetryAction::Accept && final(self).attempt
                == old(self).attempt,
            outcome_is_failure(outcome) && old(self).attempt < config.max_retries ==> a
                == RetryAction::Retry(retry_delay_ms(*config, old(self).attempt as nat) as u64)
                && final(self).attempt == old(self).attempt + 1,
            outcome_is_failure(outcome) && old(self).attempt >= config.max_retries ==> a
                == RetryAction::Fail && final(self).attempt == old(self).attempt,
            old(self).attempt <= config.max_retries ==> final(self).attempt <= config.max_retries,
            outcome_is_failure(outcome) <==> (outcome matches AttemptOutcome::Response(code) ==> (500
                <= code <= 599 || code == 429)),
    {
        let failed = match outcome {
            AttemptOutcome::Response(code) => (code >= 500 && code < 600) || code == 429,
            AttemptOutcome::TransportError => true,
        };
        if !failed {
            RetryAction::Accept
        } else if self.attempt < config.max_retries {
            let delay = config.retry_delay(self.attempt);
            self.attempt = self.attempt + 1;
            RetryAction::Retry(delay)
        } else {
            RetryAction::Fail
        }
    }
}

/// How responses are cached.
#[derive(Debug, Clone)]
pub struct CacheConfig {
    /// Whether the full instrument list is cached.
    pub enable_instruments_cache: bool,
    /// How long a cached entry lives, in minutes.
    pub cache_ttl_minutes: u64,
    /// Largest number of cached entries.
    pub max_cache_size: usize,
}

impl Default for CacheConfig {
    /// Instrument caching on, one hour lifetime, at most 1000 entries.
    fn default() -> (c: Self)
        ensures
            c.enable_instruments_cache,
            c.cache_ttl_minutes == 60,
            c.max_cache_size == 1000,
    {
        CacheConfig { enable_instruments_cache: true, cache_ttl_minutes: 60, max_cache_size: 1000 }
    }
}

/// Nanoseconds in a minute.
pub const NANOS_PER_MINUTE: u128 = 60_000_000_000;

/// In-memory cache of the instrument list, stamped with the clock reading at
/// which it was stored.
#[derive(Debug)]
pub struct ResponseCache<T> {
    /// The cached instruments and the reading at which they were stored.
    pub instruments_cache: Option<(T, u64)>,
    /// Lifetime of an entry in minutes.
    pub ttl_minutes: u64,
}

/// Whether an entry stored at reading `stored` is still fresh at `now`: the
/// clock has not gone back and less than the lifetime has passed.
pub open spec fn entry_is_fresh(stored: u64, now: u64, ttl_minutes: u64) -> bool {
    stored <= now && (now - stored) < ttl_minutes * 60_000_000_000
}

impl<T> ResponseCache<T> {
    /// An empty cache whose entries live `ttl_minutes` minutes.
    pub fn new(ttl_minutes: u64) -> (c: Self)
        ensures
            c.instruments_cache is None,
            c.ttl_minutes == ttl_minutes,
    {
        ResponseCache { instruments_cache: None, ttl_minutes }
    }

    /// The cached instruments if they are still fresh at reading `now`.
    pub fn get_instruments(&self, now: u64) -> (r: Option<&T>)
        requires
            self.ttl_minutes * 60 <= u64::MAX,
        ensures
            match self.instruments_cache {
                Some((data, stored)) => if entry_is_fresh(stored, now, self.ttl_minutes) {
                    r == Some(&data)
                } else {
                    r is None
                },
                None => r is None,
            },
    {
        match &self.instruments_cache {
            Some((data, stored)) => {
                if *stored <= now && ((now - *stored) as u128) < (self.ttl_minutes as u128)
                    * NANOS_PER_MINUTE {
                    Some(data)
                } else {
                    None
                }
            },
            None => None,
        }
    }

    /// Stores the instruments, stamped with reading `now`.
    pub fn set_instruments(&mut self, data: T, now: u64)
        ensures
            final(self).instruments_cache == Some((data, now)),
            final(self).ttl_minutes == old(self).ttl_minutes,
    {
        self.instruments_cache = Some((data, now));
    }
}

/// A cached entry is returned at the moment it is stored (for a positive
/// lifetime), and no longer once its lifetime has passed.
pub proof fn lemma_cache_fresh_then_stale(stored: u64, now: u64, ttl_minutes: u64)
    ensures
        ttl_minutes > 0 ==> entry_is_fresh(stored, stored, ttl_minutes),
        now >= stored && now - stored >= ttl_minutes * 60_000_000_000 ==> !entry_is_fresh(
            stored,
            now,
            ttl_minutes,
        ),
        now < stored ==> !entry_is_fresh(stored, now, ttl_minutes),
{
}

/// Settings of a KiteConnect client.
#[derive(Debug, Clone)]
pub struct KiteConnectConfig {
    /// Root URL of the API.
    pub base_url: String,
    /// Request timeout in seconds.
    pub timeout: u64,
    /// How failed requests are retried.
    pub retry_config: RetryConfig,
    /// How responses are cached; no caching when absent.
    pub cache_config: Option<CacheConfig>,
    /// Idle connections kept per host.
    pub max_idle_connections: usize,
    /// Seconds an idle connection is kept.
    pub idle_timeout: u64,
    /// Whether requests are rate limited.
    pub enable_rate_limiting: bool,
}

/// Root URL of the production API.
pub const DEFAULT_BASE_URL: &'static str = "https://api.kite.trade";

impl Default for KiteConnectConfig {
    /// The production API, 30 s timeouts, default retries and caching, ten
    /// idle connections, rate limiting on.
    fn default() -> (c: Self)
        ensures
            c.base_url@ == DEFAULT_BASE_URL@,
            c.timeout == 30,
            c.retry_config.max_retries == 3,
            c.retry_config.base_delay_ms == 200,
            c.retry_config.max_delay_ms == 5000,
            c.retry_config.exponential_backoff,
            c.cache_config matches Some(cc) && cc.enable_instruments_cache && cc.cache_ttl_minutes
                == 60 && cc.max_cache_size == 1000,
            c.max_idle_connections == 10,
            c.idle_timeout == 30,
            c.enable_rate_limiting,
    {
        KiteConnectConfig {
            base_url: owned(DEFAULT_BASE_URL),
            timeout: 30,
            retry_config: RetryConfig::default(),
            cache_config: Some(CacheConfig::default()),
            max_idle_connections: 10,
            idle_timeout: 30,
            enable_rate_limiting: true,
        }
    }
}

} // verus!
