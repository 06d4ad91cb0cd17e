//! Retrying transient failures.
//!
//! The decisions live here: which requests may be re-sent, how long to wait
//! before each attempt, what a `Retry-After` header asks for, and when to give
//! up. Performing the attempts and the waits is the caller's part.
use vstd::prelude::*;
use std::time::Duration;
use crate::api::error::{error_retryable, is_retryable_status, retryable_status, Error};
use crate::api::transport::{header_spec, Header, Method, TmfResponse};
use crate::text::{chars_of, parse_u64, parse_u64_spec, trim, trim_range};
use crate::time::{
    clock_epoch_secs, clock_subsec_nanos, subsec_of_reading, duration_from_millis, duration_from_secs,
    duration_of_nanos, httpdate, httpdate_spec, max_span, nanos_of, span_nanos,
};

verus! {

/// How many times, and how patiently, to retry.
#[derive(Debug, Clone, Copy)]
pub struct RetryPolicy {
    /// Attempts *after* the first. Zero disables retrying.
    pub max_retries: u32,
    /// Delay before the first retry; doubles each attempt.
    pub base_delay: Duration,
    /// Ceiling on the computed delay.
    pub max_delay: Duration,
    /// Whether to obey a `Retry-After` header when the server sends one.
    pub honor_retry_after: bool,
    /// The longest `Retry-After` this client will wait out.
    ///
    /// Separate from [`max_delay`](Self::max_delay), which bounds the
    /// *computed* backoff: a `Retry-After` longer than this ends the retries
    /// and returns the response instead, rather than re-asking a rate-limited
    /// gateway before it said to.
    pub max_retry_after: Duration,
    /// Whether to spread retries randomly over the backoff window.
    pub jitter: bool,
}

/// `2^e`.
pub open spec fn two_to(e: nat) -> nat
    decreases e,
{
    if e == 0 {
        1
    } else {
        2 * two_to((e - 1) as nat)
    }
}

/// `2^(attempt - 1)`, saturating at `u32::MAX`: the multiplier of the base
/// delay before attempt `attempt`.
pub open spec fn backoff_factor(attempt: u32) -> nat {
    let e: nat = if attempt == 0 {
        0
    } else {
        (attempt - 1) as nat
    };
    if e >= 32 {
        0xFFFF_FFFF
    } else {
        two_to(e)
    }
}

/// The backoff window before attempt `attempt`, in nanoseconds: the base
/// delay times [`backoff_factor`], saturating at the longest `Duration`, and
/// capped at `max`.
pub open spec fn window_nanos(base: nat, max: nat, attempt: u32) -> nat {
    let product = base * backoff_factor(attempt);
    let saturated = if product > max_span() {
        max_span()
    } else {
        product
    };
    if saturated <= max {
        saturated
    } else {
        max
    }
}

/// A window scaled by `permille` thousandths, floored, and capped at
/// `u64::MAX` nanoseconds.
pub open spec fn jittered_nanos(window: nat, permille: nat) -> nat {
    let scaled = window * permille / 1000;
    if scaled > 0xFFFF_FFFF_FFFF_FFFF {
        0xFFFF_FFFF_FFFF_FFFF
    } else {
        scaled
    }
}

/// The window of `policy` before attempt `attempt`, in nanoseconds.
pub open spec fn policy_window(policy: RetryPolicy, attempt: u32) -> nat {
    window_nanos(span_nanos(policy.base_delay), span_nanos(policy.max_delay), attempt)
}

/// The delay before attempt `attempt` when the jitter draw is `permille`.
pub open spec fn policy_delay(policy: RetryPolicy, attempt: u32, permille: nat) -> nat {
    if policy.jitter {
        jittered_nanos(policy_window(policy, attempt), permille)
    } else {
        policy_window(policy, attempt)
    }
}

/// `2^31` is `0x8000_0000`.
proof fn lemma_two_to_31()
    ensures
        two_to(31) == 0x8000_0000,
{
    reveal_with_fuel(two_to, 32);
}

/// `2^e` is at most `2^f` when `e <= f`.
proof fn lemma_two_to_monotone(e: nat, f: nat)
    requires
        e <= f,
    ensures
        two_to(e) <= two_to(f),
        two_to(e) >= 1,
    decreases f,
{
    if f > e {
        lemma_two_to_monotone(e, (f - 1) as nat);
    } else if e > 0 {
        lemma_two_to_monotone((e - 1) as nat, (e - 1) as nat);
    }
}

/// The backoff factor never shrinks from one attempt to the next.
proof fn lemma_factor_monotone(a: u32, b: u32)
    requires
        a <= b,
    ensures
        backoff_factor(a) <= backoff_factor(b),
{
    lemma_two_to_31();
    let ea: nat = if a == 0 {
        0
    } else {
        (a - 1) as nat
    };
    let eb: nat = if b == 0 {
        0
    } else {
        (b - 1) as nat
    };
    if eb < 32 {
        lemma_two_to_monotone(ea, eb);
    } else if ea < 32 {
        lemma_two_to_monotone(ea, 31);
    }
}

/// The backoff window never exceeds `max_delay`, and never shrinks as the
/// attempts go on.
pub proof fn lemma_window_bounded_and_monotone(policy: RetryPolicy, a: u32, b: u32)
    requires
        a <= b,
    ensures
        policy_window(policy, a) <= span_nanos(policy.max_delay),
        policy_window(policy, a) <= policy_window(policy, b),
{
    lemma_factor_monotone(a, b);
    let base = span_nanos(policy.base_delay);
    assert(base * backoff_factor(a) <= base * backoff_factor(b)) by (nonlinear_arith)
        requires
            backoff_factor(a) <= backoff_factor(b),
    ;
}

/// `two_to` is the power of two as vstd's arithmetic library defines it.
proof fn lemma_two_to_is_pow2(e: nat)
    ensures
        two_to(e) == vstd::arithmetic::power2::pow2(e),
    decreases e,
{
    if e == 0 {
        vstd::arithmetic::power::lemma_pow0(2);
    } else {
        lemma_two_to_is_pow2((e - 1) as nat);
        vstd::arithmetic::power2::lemma_pow2_unfold(e);
    }
}

/// Exponential backoff: below `max_delay`, the window before attempt `n` is
/// `base_delay * 2^(n-1)`, and the window before the next attempt is
/// exactly twice it. (`max_delay` is a real span, so it fits a
/// `Duration`.)
pub proof fn lemma_backoff_doubles(policy: RetryPolicy, n: u32)
    requires
        1 <= n <= 31,
        span_nanos(policy.max_delay) <= max_span(),
        span_nanos(policy.base_delay) * vstd::arithmetic::power2::pow2(n as nat) <= span_nanos(
            policy.max_delay,
        ),
    ensures
        policy_window(policy, n) == span_nanos(policy.base_delay) * vstd::arithmetic::power2::pow2(
            (n - 1) as nat,
        ),
        policy_window(policy, (n + 1) as u32) == 2 * policy_window(policy, n),
{
    let base = span_nanos(policy.base_delay);
    let e = (n - 1) as nat;
    lemma_two_to_is_pow2(e);
    lemma_two_to_is_pow2(n as nat);
    vstd::arithmetic::power2::lemma_pow2_unfold(n as nat);
    let p = vstd::arithmetic::power2::pow2(e);
    let q = vstd::arithmetic::power2::pow2(n as nat);
    assert(backoff_factor(n) == p);
    assert(backoff_factor((n + 1) as u32) == q);
    assert(base * q == 2 * (base * p)) by (nonlinear_arith)
        requires
            q == 2 * p,
    ;
    assert(base * p <= base * q) by (nonlinear_arith)
        requires
            q == 2 * p,
    ;
}

/// The delay never exceeds the window it is drawn from, whatever the jitter
/// draw, as long as the draw is a proper fraction.
pub proof fn lemma_delay_within_window(policy: RetryPolicy, attempt: u32, permille: nat)
    requires
        permille < 1000,
    ensures
        policy_delay(policy, attempt, permille) <= policy_window(policy, attempt),
{
    let w = policy_window(policy, attempt);
    assert(w * permille / 1000 <= w) by (nonlinear_arith)
        requires
            permille < 1000,
    ;
}

/// A pseudo-random value in `0..1000` mixed from `nanos`: a multiplicative
/// hash, which decorrelates the low bits of a clock that advances in coarse
/// steps.
pub open spec fn mix_permille_spec(nanos: u32) -> nat {
    let n: nat = nanos as nat;
    (n * 0x9E37_79B9_7F4A_7C15nat % 0x1_0000_0000_0000_0000nat / 2048nat % 1000nat) as nat
}

/// Mixes a clock reading into a value in `0..1000`.
pub fn mix_permille(nanos: u32) -> (r: u32)
    ensures
        r == mix_permille_spec(nanos),
        r < 1000,
{
    let product: u128 = (nanos as u128) * 0x9E37_79B9_7F4A_7C15u128;
    let wrapped = product % 0x1_0000_0000_0000_0000u128;
    ((wrapped / 2048) % 1000) as u32
}

/// A pseudo-random value in `0..1000`, derived from the clock.
///
/// Retry scheduling wants *spread*, not unpredictability, so a hashed clock
/// reading is ample.
pub fn jitter_permille() -> (r: u32)
    ensures
        r < 1000,
        exists|reading: Option<Duration>|
            r == mix_permille_spec(#[trigger] subsec_of_reading(reading) as u32),
{
    let n = clock_subsec_nanos();
    let r = mix_permille(n);
    proof {
        let reading = choose|reading: Option<Duration>| n == #[trigger] subsec_of_reading(reading);
        assert(r == mix_permille_spec(subsec_of_reading(reading) as u32));
    }
    r
}

/// `window` scaled by `permille` thousandths, floored, and capped at
/// `u64::MAX` nanoseconds.
pub fn jittered(window: Duration, permille: u32) -> (r: Duration)
    ensures
        span_nanos(r) == jittered_nanos(span_nanos(window), permille as nat),
{
    let w = nanos_of(&window);
    assert(w * permille <= max_span() * 0xFFFF_FFFF) by (nonlinear_arith)
        requires
            w <= max_span(),
    ;
    let scaled = w * (permille as u128) / 1000;
    if scaled > 0xFFFF_FFFF_FFFF_FFFFu128 {
        duration_of_nanos(0xFFFF_FFFF_FFFF_FFFFu128)
    } else {
        duration_of_nanos(scaled)
    }
}

impl RetryPolicy {
    /// The defaults: three retries, starting at 250 ms and capped at 10 s,
    /// honouring a `Retry-After` of up to a minute, with jitter.
    pub fn default() -> (r: Self)
        ensures
            r.max_retries == 3,
            span_nanos(r.base_delay) == 250_000_000,
            span_nanos(r.max_delay) == 10_000_000_000,
            r.honor_retry_after,
            span_nanos(r.max_retry_after) == 60_000_000_000,
            r.jitter,
    {
        RetryPolicy {
            max_retries: 3,
            base_delay: duration_from_millis(250),
            max_delay: duration_from_secs(10),
            honor_retry_after: true,
            max_retry_after: duration_from_secs(60),
            jitter: true,
        }
    }

    /// Sets the number of retries after the first attempt.
    pub fn max_retries(self, retries: u32) -> (r: Self)
        ensures
            r == (Self { max_retries: retries, ..self }),
    {
        Self { max_retries: retries, ..self }
    }

    /// Sets the delay before the first retry.
    pub fn base_delay(self, delay: Duration) -> (r: Self)
        ensures
            r == (Self { base_delay: delay, ..self }),
    {
        Self { base_delay: delay, ..self }
    }

    /// Sets the ceiling on the computed delay.
    pub fn max_delay(self, delay: Duration) -> (r: Self)
        ensures
            r == (Self { max_delay: delay, ..self }),
    {
        Self { max_delay: delay, ..self }
    }

    /// Sets whether `Retry-After` overrides the computed backoff.
    pub fn honor_retry_after(self, honor: bool) -> (r: Self)
        ensures
            r == (Self { honor_retry_after: honor, ..self }),
    {
        Self { honor_retry_after: honor, ..self }
    }

    /// Sets the longest `Retry-After` this client will wait out.
    pub fn max_retry_after(self, limit: Duration) -> (r: Self)
        ensures
            r == (Self { max_retry_after: limit, ..self }),
    {
        Self { max_retry_after: limit, ..self }
    }

    /// Sets whether to spread retries over the backoff window.
    pub fn jitter(self, jitter: bool) -> (r: Self)
        ensures
            r == (Self { jitter, ..self }),
    {
        Self { jitter, ..self }
    }

    /// The backoff ceiling for attempt `attempt` (1-based), capped at
    /// `max_delay`.
    ///
    /// This is the *window*, not the wait: with jitter on, the actual wait is
    /// drawn from `[0, window]` ("full jitter").
    pub fn window_for(&self, attempt: u32) -> (r: Duration)
        ensures
            span_nanos(r) == policy_window(*self, attempt),
            span_nanos(r) <= span_nanos(self.max_delay),
    {
        let e: u32 = if attempt == 0 {
            0
        } else {
            attempt - 1
        };
        let mut factor: u64 = 1;
        if e >= 32 {
            factor = 0xFFFF_FFFF;
        } else {
            let mut k: u32 = 0;
            while k < e
                invariant
                    k <= e < 32,
                    factor == two_to(k as nat),
                decreases e - k,
            {
                proof {
                    lemma_two_to_31();
                    lemma_two_to_monotone(k as nat, 30);
                }
                factor = factor * 2;
                k = k + 1;
            }
        }
        assert(factor == backoff_factor(attempt));
        let base = nanos_of(&self.base_delay);
        let max = nanos_of(&self.max_delay);
        proof {
            lemma_two_to_31();
            if e < 32 {
                lemma_two_to_monotone(e as nat, 31);
            }
        }
        assert(base * factor <= max_span() * 0xFFFF_FFFF) by (nonlinear_arith)
            requires
                base <= max_span(),
                factor <= 0xFFFF_FFFF,
        ;
        let product = base * (factor as u128);
        let saturated = if product > 0xFFFF_FFFF_FFFF_FFFF * 1_000_000_000 + 999_999_999 {
            0xFFFF_FFFF_FFFF_FFFF * 1_000_000_000 + 999_999_999
        } else {
            product
        };
        if saturated <= max {
            duration_of_nanos(saturated)
        } else {
            self.max_delay
        }
    }

    /// The delay before attempt `attempt` when the jitter draw is `permille`.
    pub fn delay_with(&self, attempt: u32, permille: u32) -> (r: Duration)
        ensures
            span_nanos(r) == policy_delay(*self, attempt, permille as nat),
    {
        let window = self.window_for(attempt);
        if !self.jitter {
            return window;
        }
        jittered(window, permille)
    }

    /// The delay before attempt `attempt`, with jitter applied if enabled.
    ///
    /// With jitter the delay is drawn from the window; it never exceeds it.
    pub fn delay_for(&self, attempt: u32) -> (r: Duration)
        ensures
            !self.jitter ==> span_nanos(r) == policy_window(*self, attempt),
            exists|p: nat| p < 1000 && span_nanos(r) == policy_delay(*self, attempt, p),
            span_nanos(r) <= policy_window(*self, attempt),
    {
        if !self.jitter {
            let w = self.window_for(attempt);
            assert(span_nanos(w) == policy_delay(*self, attempt, 0nat));
            return w;
        }
        let p = jitter_permille();
        let r = self.delay_with(attempt, p);
        proof {
            lemma_delay_within_window(*self, attempt, p as nat);
        }
        r
    }

    /// Whether a request with this method is worth retrying at all: retries
    /// are enabled and the method is idempotent.
    pub fn retries(&self, method: &Method) -> (r: bool)
        ensures
            r == (self.max_retries > 0 && idempotent(*method)),
    {
        self.max_retries > 0 && is_idempotent(method)
    }
}

/// Whether re-sending a request with this method could not change the
/// outcome on the server: `GET`, `HEAD`, `PUT` and `DELETE`.
///
/// `POST` may create a duplicate. `PATCH` is left out too: an RFC 6902
/// operation list `add`s to arrays by inserting, so replaying one appends a
/// second copy, and the method does not say which flavour it carries.
pub open spec fn idempotent(method: Method) -> bool {
    method is Get || method is Head || method is Put || method is Delete
}

/// Whether re-sending a request with this method could not change the
/// outcome on the server.
pub fn is_idempotent(method: &Method) -> (r: bool)
    ensures
        r == idempotent(*method),
{
    match method {
        Method::Get | Method::Head | Method::Put | Method::Delete => true,
        _ => false,
    }
}

/// What a `Retry-After` header asks for, in seconds, when the reference
/// clock reads `now`: a number of seconds as given, or an HTTP date measured
/// from the response's own `Date` (or from `now` when that is missing or
/// unreadable), an elapsed date meaning no wait.
pub open spec fn retry_after_spec(hs: Seq<Header>, now: u64) -> Option<nat> {
    match header_spec(hs, seq!['r', 'e', 't', 'r', 'y', '-', 'a', 'f', 't', 'e', 'r']) {
        None => None,
        Some(v) => {
            let raw = trim(v);
            match parse_u64_spec(raw) {
                Some(secs) => Some(secs as nat),
                None => match httpdate_spec(raw) {
                    None => None,
                    Some(until) => {
                        let reference = match header_spec(hs, seq!['d', 'a', 't', 'e']) {
                            Some(d) => match httpdate_spec(d) {
                                Some(t) => t,
                                None => now,
                            },
                            None => now,
                        };
                        Some(
                            if until >= reference {
                                (until - reference) as nat
                            } else {
                                0
                            },
                        )
                    },
                },
            }
        },
    }
}

/// The server's requested wait, given what the reference clock reads.
pub fn retry_after_at(response: &TmfResponse, now: u64) -> (r: Option<Duration>)
    ensures
        r matches Some(d) ==> retry_after_spec(response.headers@, now) == Some(
            span_nanos(d) / 1_000_000_000,
        ) && span_nanos(d) % 1_000_000_000 == 0,
        r is None ==> retry_after_spec(response.headers@, now) is None,
{
    proof {
        reveal_strlit("retry-after");
        reveal_strlit("date");
        assert("retry-after"@ =~= seq!['r', 'e', 't', 'r', 'y', '-', 'a', 'f', 't', 'e', 'r']);
        assert("date"@ =~= seq!['d', 'a', 't', 'e']);
    }
    let value = match response.header("retry-after") {
        Some(v) => v,
        None => return None,
    };
    let c = chars_of(value.as_str());
    assert(c@.subrange(0, c@.len() as int) =~= c@);
    let (lo, hi) = trim_range(c.as_slice(), 0, c.len());
    if let Some(secs) = parse_u64(c.as_slice(), lo, hi) {
        return Some(duration_from_secs(secs));
    }
    let raw = crate::text::string_of_range(c.as_slice(), lo, hi);
    let until = match httpdate(raw.as_str()) {
        Some(t) => t,
        None => return None,
    };
    let reference = match response.header("date") {
        Some(d) => match httpdate(d.as_str()) {
            Some(t) => t,
            None => now,
        },
        None => now,
    };
    let secs = if until >= reference {
        until - reference
    } else {
        0
    };
    Some(duration_from_secs(secs))
}

/// The server's requested wait, when it sent one.
///
/// RFC 9110 permits either a delay in seconds or an HTTP date; both are read,
/// and an HTTP date already in the past means "now". A date is measured from
/// the response's `Date` header, so clock skew between client and server does
/// not turn a 5-second wait into an hour; only without one is the local clock
/// read.
pub fn retry_after(response: &TmfResponse) -> (r: Option<Duration>)
    ensures
        exists|now: u64|
            {
                &&& r matches Some(d) ==> retry_after_spec(response.headers@, now) == Some(
                    span_nanos(d) / 1_000_000_000,
                )
                &&& r is None ==> retry_after_spec(response.headers@, now) is None
            },
{
    retry_after_at(response, clock_epoch_secs())
}

/// What one attempt came to: an answer from the server, or a failure below
/// it, reduced to what the retry decision reads.
pub open spec fn outcome_retryable(outcome: &Result<TmfResponse, Error>) -> bool {
    match outcome {
        Ok(response) => retryable_status(response.status),
        Err(e) => error_retryable(e),
    }
}

/// How long to wait before another attempt, in nanoseconds, or `None` to
/// hand `outcome` back, after attempt number `attempt`, when the jitter draw
/// is `permille` and the reference clock reads `now`.
pub open spec fn retry_wait_spec(
    policy: RetryPolicy,
    attempt: u32,
    outcome: &Result<TmfResponse, Error>,
    permille: nat,
    now: u64,
) -> Option<nat> {
    let backoff = policy_delay(policy, attempt, permille);
    let wait: Option<nat> = match outcome {
        Err(e) => if error_retryable(e) {
            Some(backoff)
        } else {
            None
        },
        Ok(response) => if retryable_status(response.status) {
            let asked = if policy.honor_retry_after {
                retry_after_spec(response.headers@, now)
            } else {
                None
            };
            match asked {
                Some(secs) => if secs * 1_000_000_000 > span_nanos(policy.max_retry_after) {
                    None
                } else {
                    Some(secs * 1_000_000_000)
                },
                None => Some(backoff),
            }
        } else {
            None
        },
    };
    if attempt > policy.max_retries {
        None
    } else {
        wait
    }
}

/// No attempt is made beyond the budget: after attempt `max_retries + 1`
/// the outcome is handed back, whatever it was.
pub proof fn lemma_attempts_bounded(
    policy: RetryPolicy,
    attempt: u32,
    outcome: &Result<TmfResponse, Error>,
    permille: nat,
    now: u64,
)
    requires
        attempt > policy.max_retries,
    ensures
        retry_wait_spec(policy, attempt, outcome, permille, now) is None,
{
}

/// A failure not worth retrying — a client error, a `501`, a refusal made
/// before any request — is handed back at once.
pub proof fn lemma_permanent_failures_are_not_retried(
    policy: RetryPolicy,
    attempt: u32,
    outcome: &Result<TmfResponse, Error>,
    permille: nat,
    now: u64,
)
    requires
        !outcome_retryable(outcome),
    ensures
        retry_wait_spec(policy, attempt, outcome, permille, now) is None,
{
}

/// A server that asks for a longer wait than the policy will hold a request
/// open for ends the retries, rather than being re-asked early; a shorter
/// request is waited out in full, even beyond `max_delay`.
pub proof fn lemma_retry_after_is_obeyed_or_ends_the_retries(
    policy: RetryPolicy,
    attempt: u32,
    response: TmfResponse,
    permille: nat,
    now: u64,
)
    requires
        policy.honor_retry_after,
        retryable_status(response.status),
        attempt <= policy.max_retries,
        retry_after_spec(response.headers@, now) is Some,
    ensures
        ({
            let secs = retry_after_spec(response.headers@, now).unwrap();
            let wait = retry_wait_spec(policy, attempt, &Ok(response), permille, now);
            &&& secs * 1_000_000_000 > span_nanos(policy.max_retry_after) ==> wait is None
            &&& secs * 1_000_000_000 <= span_nanos(policy.max_retry_after) ==> wait == Some(
                secs * 1_000_000_000,
            )
        }),
{
}

/// A client error is the server's last word: a response with a 4xx status
/// other than `408` and `429` is handed back at once, never re-sent,
/// whatever the policy, the attempt, the jitter draw or the clock.
pub proof fn lemma_a_client_error_is_handed_back(
    policy: RetryPolicy,
    attempt: u32,
    response: TmfResponse,
    permille: nat,
    now: u64,
)
    requires
        400 <= response.status <= 499,
        response.status != 408,
        response.status != 429,
    ensures
        retry_wait_spec(policy, attempt, &Ok(response), permille, now) is None,
{
    crate::api::error::lemma_which_statuses_are_retryable(response.status);
}

/// A request that could change something on a re-send — `POST`, `PATCH` —
/// is never retried, and neither is anything when the budget is zero.
pub proof fn lemma_only_idempotent_requests_are_retried(policy: RetryPolicy, method: Method)
    ensures
        (policy.max_retries > 0 && idempotent(method)) ==> !(method is Post || method is Patch),
        method is Post || method is Patch ==> !(policy.max_retries > 0 && idempotent(method)),
{
}

/// The decision after attempt `n` of a run whose attempts come to
/// `outcome(n)`, with jitter draw `permille(n)` and clock reading `now(n)`:
/// how long to wait before attempt `n + 1`, or `None` to hand `outcome(n)`
/// back.
pub open spec fn run_decision(
    policy: RetryPolicy,
    outcome: spec_fn(nat) -> Result<TmfResponse, Error>,
    permille: spec_fn(nat) -> nat,
    now: spec_fn(nat) -> u64,
    n: nat,
) -> Option<nat> {
    if n > policy.max_retries {
        None
    } else {
        retry_wait_spec(policy, n as u32, &outcome(n), permille(n), now(n))
    }
}

/// The attempt, from attempt `n` on, whose decision hands its outcome back.
pub open spec fn last_attempt_from(
    policy: RetryPolicy,
    outcome: spec_fn(nat) -> Result<TmfResponse, Error>,
    permille: spec_fn(nat) -> nat,
    now: spec_fn(nat) -> u64,
    n: nat,
) -> nat
    decreases policy.max_retries + 1 - n,
{
    if run_decision(policy, outcome, permille, now, n) is None {
        n
    } else {
        last_attempt_from(policy, outcome, permille, now, n + 1)
    }
}

/// How many times a request with `method` is sent: once when the policy
/// does not retry it, else up to the first attempt whose decision hands its
/// outcome back. Between two attempts the run sleeps once, for the wait the
/// earlier decision gave, and the run answers with the last attempt's
/// outcome.
pub open spec fn attempts_made(
    policy: RetryPolicy,
    method: Method,
    outcome: spec_fn(nat) -> Result<TmfResponse, Error>,
    permille: spec_fn(nat) -> nat,
    now: spec_fn(nat) -> u64,
) -> nat {
    if policy.max_retries > 0 && idempotent(method) {
        last_attempt_from(policy, outcome, permille, now, 1)
    } else {
        1
    }
}

/// What [`last_attempt_from`] finds: an attempt at or after `n`, within the
/// budget, whose decision is `None`, every attempt before it deciding to
/// wait.
proof fn lemma_last_attempt_from(
    policy: RetryPolicy,
    outcome: spec_fn(nat) -> Result<TmfResponse, Error>,
    permille: spec_fn(nat) -> nat,
    now: spec_fn(nat) -> u64,
    n: nat,
)
    requires
        n <= policy.max_retries + 1,
    ensures
        n <= last_attempt_from(policy, outcome, permille, now, n) <= policy.max_retries + 1,
        run_decision(policy, outcome, permille, now, last_attempt_from(policy, outcome, permille, now, n)) is None,
        forall|k: nat|
            n <= k < last_attempt_from(policy, outcome, permille, now, n) ==> #[trigger] run_decision(
                policy,
                outcome,
                permille,
                now,
                k,
            ) is Some,
    decreases policy.max_retries + 1 - n,
{
    if run_decision(policy, outcome, permille, now, n) is Some {
        lemma_last_attempt_from(policy, outcome, permille, now, n + 1);
    }
}

/// The bounds on a run of retries: a request is sent at least once and at
/// most `max_retries + 1` times; once only when retries are off or its
/// method is not idempotent; and the run sleeps after exactly the attempts
/// before the last, each of which decided to wait, while the last decided to
/// hand its outcome back.
pub proof fn lemma_a_run_is_bounded(
    policy: RetryPolicy,
    method: Method,
    outcome: spec_fn(nat) -> Result<TmfResponse, Error>,
    permille: spec_fn(nat) -> nat,
    now: spec_fn(nat) -> u64,
)
    ensures
        1 <= attempts_made(policy, method, outcome, permille, now) <= policy.max_retries + 1,
        !(policy.max_retries > 0 && idempotent(method)) ==> attempts_made(
            policy,
            method,
            outcome,
            permille,
            now,
        ) == 1,
        policy.max_retries > 0 && idempotent(method) ==> {
            let n = attempts_made(policy, method, outcome, permille, now);
            &&& run_decision(policy, outcome, permille, now, n) is None
            &&& forall|k: nat|
                1 <= k < n ==> #[trigger] run_decision(policy, outcome, permille, now, k) is Some
        },
{
    if policy.max_retries > 0 && idempotent(method) {
        lemma_last_attempt_from(policy, outcome, permille, now, 1);
    }
}

/// A server that keeps failing in a way worth retrying, and names no wait,
/// exhausts the budget: an idempotent request is sent `max_retries + 1`
/// times.
pub proof fn lemma_persistent_failure_uses_the_whole_budget(
    policy: RetryPolicy,
    method: Method,
    outcome: spec_fn(nat) -> Result<TmfResponse, Error>,
    permille: spec_fn(nat) -> nat,
    now: spec_fn(nat) -> u64,
)
    requires
        policy.max_retries > 0,
        idempotent(method),
        forall|k: nat|
            #[trigger] outcome(k) matches Ok(r) && retryable_status(r.status) && retry_after_spec(
                r.headers@,
                now(k),
            ) is None,
    ensures
        attempts_made(policy, method, outcome, permille, now) == policy.max_retries + 1,
{
    lemma_a_run_is_bounded(policy, method, outcome, permille, now);
    let n = attempts_made(policy, method, outcome, permille, now);
    if n <= policy.max_retries {
        let o = outcome(n);
        assert(run_decision(policy, outcome, permille, now, n) is Some);
    }
}

impl RetryPolicy {
    /// Decides, after attempt number `attempt` came to `outcome`, whether to
    /// try again and after how long: `None` hands `outcome` back.
    ///
    /// A failure worth retrying waits out the backoff; a `Retry-After`
    /// outranks it in both directions, unless it asks for longer than
    /// `max_retry_after`, which ends the retries rather than re-asking a
    /// rate-limited server early. Attempts beyond `max_retries` are never
    /// made.
    pub fn next_wait(&self, attempt: u32, outcome: &Result<TmfResponse, Error>) -> (r: Option<
        Duration,
    >)
        ensures
            exists|p: nat, now: u64|
                p < 1000 && {
                    &&& r matches Some(d) ==> retry_wait_spec(*self, attempt, outcome, p, now)
                        == Some(span_nanos(d))
                    &&& r is None ==> retry_wait_spec(*self, attempt, outcome, p, now) is None
                },
            attempt > self.max_retries ==> r is None,
            r is Some ==> outcome_retryable(outcome),
    {
        let p = jitter_permille();
        let now = clock_epoch_secs();
        let r = self.wait_with(attempt, outcome, p, now);
        assert(p < 1000 && {
            &&& r matches Some(d) ==> retry_wait_spec(*self, attempt, outcome, p as nat, now)
                == Some(span_nanos(d))
            &&& r is None ==> retry_wait_spec(*self, attempt, outcome, p as nat, now) is None
        });
        r
    }

    /// The decision [`next_wait`](Self::next_wait) makes when the jitter draw
    /// is `permille` and the reference clock reads `now`.
    pub fn wait_with(
        &self,
        attempt: u32,
        outcome: &Result<TmfResponse, Error>,
        permille: u32,
        now: u64,
    ) -> (r: Option<Duration>)
        ensures
            r matches Some(d) ==> retry_wait_spec(*self, attempt, outcome, permille as nat, now)
                == Some(span_nanos(d)),
            r is None ==> retry_wait_spec(*self, attempt, outcome, permille as nat, now) is None,
            attempt > self.max_retries ==> r is None,
            r is Some ==> outcome_retryable(outcome),
    {
        let backoff = self.delay_with(attempt, permille);
        let wait = match outcome {
            Err(e) => {
                if e.is_retryable() {
                    backoff
                } else {
                    return None;
                }
            },
            Ok(response) => {
                if !is_retryable_status(response.status) {
                    return None;
                }
                let asked = if self.honor_retry_after {
                    retry_after_at(response, now)
                } else {
                    None
                };
                match asked {
                    Some(w) => {
                        if nanos_of(&w) > nanos_of(&self.max_retry_after) {
                            return None;
                        }
                        w
                    },
                    None => backoff,
                }
            },
        };
        if attempt > self.max_retries {
            return None;
        }
        Some(wait)
    }
}

/// A pause in the retry loop that a test can stand in for: the tokio timer
/// by default.
#[derive(Debug, Clone, Copy)]
pub struct TokioSleeper;

/// What a run does after an attempt came back: wait this long and try
/// again, or answer with that attempt's outcome.
#[derive(Debug)]
pub enum RetryStep {
    /// Sleep for the duration, then send the request again.
    Wait(Duration),
    /// Hand back the outcome of the attempt just made.
    Answer,
}

/// One request's run of attempts under a policy: how many attempts came
/// back and whether the run has answered. The caller sends the request,
/// hands each outcome to [`record`](Self::record), and sleeps or answers as
/// told; so it sends the request exactly [`attempts`](Self::attempts)
/// times, never more than `max_retries + 1`.
#[derive(Debug)]
pub struct RetryRun {
    policy: RetryPolicy,
    retrying: bool,
    attempts: u64,
    answered: bool,
}

impl RetryRun {
    #[verifier::type_invariant]
    spec fn within_budget(&self) -> bool {
        &&& self.attempts <= self.policy.max_retries + 1
        &&& !self.retrying ==> self.attempts <= 1
        &&& !self.answered ==> if self.retrying {
            self.attempts <= self.policy.max_retries
        } else {
            self.attempts == 0
        }
    }

    /// The policy the run follows.
    pub closed spec fn policy_spec(&self) -> RetryPolicy {
        self.policy
    }

    /// Whether the request may be retried at all.
    pub closed spec fn retrying_spec(&self) -> bool {
        self.retrying
    }

    /// How many attempts have come back.
    pub closed spec fn attempts_spec(&self) -> nat {
        self.attempts as nat
    }

    /// Whether the run has answered.
    pub closed spec fn answered_spec(&self) -> bool {
        self.answered
    }

    /// A run of `method` under `policy`, before its first attempt. Only an
    /// idempotent request under a policy with retries is retried.
    pub fn start(policy: RetryPolicy, method: &Method) -> (r: RetryRun)
        ensures
            r.policy_spec() == policy,
            r.retrying_spec() == (policy.max_retries > 0 && idempotent(*method)),
            r.attempts_spec() == 0,
            !r.answered_spec(),
    {
        RetryRun { policy, retrying: policy.retries(method), attempts: 0, answered: false }
    }

    /// How many attempts have come back: never more than `max_retries + 1`,
    /// and at most one for a request that is not retried.
    pub fn attempts(&self) -> (r: u64)
        ensures
            r == self.attempts_spec(),
            r <= self.policy_spec().max_retries + 1,
            !self.retrying_spec() ==> r <= 1,
    {
        proof {
            use_type_invariant(self);
        }
        self.attempts
    }

    /// Takes in the outcome of the attempt just made and says what to do.
    ///
    /// A request that is not retried answers at once. Otherwise attempt
    /// number `n` waits as [`RetryPolicy::next_wait`] decides for it, and
    /// answers when that decision hands the outcome back or when `n` is
    /// past `max_retries`.
    pub fn record(&mut self, outcome: &Result<TmfResponse, Error>) -> (r: RetryStep)
        requires
            !old(self).answered_spec(),
        ensures
            final(self).attempts_spec() == old(self).attempts_spec() + 1,
            final(self).policy_spec() == old(self).policy_spec(),
            final(self).retrying_spec() == old(self).retrying_spec(),
            (r is Answer) == final(self).answered_spec(),
            final(self).attempts_spec() <= final(self).policy_spec().max_retries + 1,
            !old(self).retrying_spec() ==> r is Answer && final(self).attempts_spec() == 1,
            r is Wait ==> final(self).attempts_spec() <= final(self).policy_spec().max_retries,
            final(self).attempts_spec() > final(self).policy_spec().max_retries ==> r is Answer,
            old(self).retrying_spec() && final(self).attempts_spec()
                <= final(self).policy_spec().max_retries ==> (match r {
                RetryStep::Wait(d) => exists|p: nat, now: u64|
                    p < 1000 && #[trigger] retry_wait_spec(
                        final(self).policy_spec(),
                        final(self).attempts_spec() as u32,
                        outcome,
                        p,
                        now,
                    ) == Some(span_nanos(d)),
                RetryStep::Answer => exists|p: nat, now: u64|
                    p < 1000 && #[trigger] retry_wait_spec(
                        final(self).policy_spec(),
                        final(self).attempts_spec() as u32,
                        outcome,
                        p,
                        now,
                    ) is None,
            }),
    {
        proof {
            use_type_invariant(&*self);
        }
        let n = self.attempts + 1;
        if !self.retrying || n > self.policy.max_retries as u64 {
            *self = RetryRun { policy: self.policy, retrying: self.retrying, attempts: n, answered: true };
            return RetryStep::Answer;
        }
        let attempt = n as u32;
        let decision = self.policy.next_wait(attempt, outcome);
        match decision {
            Some(d) => {
                self.attempts = n;
                RetryStep::Wait(d)
            },
            None => {
                *self = RetryRun {
                    policy: self.policy,
                    retrying: self.retrying,
                    attempts: n,
                    answered: true,
                };
                RetryStep::Answer
            },
        }
    }
}

/// A transport that retries transient failures of the transport it wraps,
/// with the policy given and a sleeper to wait between attempts.
#[derive(Debug)]
pub struct RetryTransport<T, S> {
    inner: T,
    policy: RetryPolicy,
    sleeper: S,
}

impl<T> RetryTransport<T, TokioSleeper> {
    /// Wraps `inner` with `policy`, sleeping on tokio.
    pub fn new(inner: T, policy: RetryPolicy) -> (r: Self)
        ensures
            r.inner_spec() == inner,
            r.policy_spec() == policy,
    {
        Self::with_sleeper(inner, policy, TokioSleeper)
    }

    /// Wraps `inner` with the default policy, sleeping on tokio.
    pub fn with_defaults(inner: T) -> (r: Self)
        ensures
            r.inner_spec() == inner,
            r.policy_spec().max_retries == 3,
            span_nanos(r.policy_spec().base_delay) == 250_000_000,
            span_nanos(r.policy_spec().max_delay) == 10_000_000_000,
            r.policy_spec().honor_retry_after,
            span_nanos(r.policy_spec().max_retry_after) == 60_000_000_000,
            r.policy_spec().jitter,
    {
        Self::new(inner, RetryPolicy::default())
    }
}

impl<T, S> RetryTransport<T, S> {
    /// The wrapped transport.
    pub closed spec fn inner_spec(&self) -> T {
        self.inner
    }

    /// The policy.
    pub closed spec fn policy_spec(&self) -> RetryPolicy {
        self.policy
    }

    /// The sleeper.
    pub closed spec fn sleeper_spec(&self) -> S {
        self.sleeper
    }

    /// Wraps `inner` with `policy`, waiting through `sleeper`.
    pub fn with_sleeper(inner: T, policy: RetryPolicy, sleeper: S) -> (r: Self)
        ensures
            r.inner_spec() == inner,
            r.policy_spec() == policy,
            r.sleeper_spec() == sleeper,
    {
        RetryTransport { inner, policy, sleeper }
    }

    /// The wrapped transport.
    pub fn inner(&self) -> (r: &T)
        ensures
            *r == self.inner_spec(),
    {
        &self.inner
    }

    /// The policy attempts are made under.
    pub fn policy(&self) -> (r: &RetryPolicy)
        ensures
            *r == self.policy_spec(),
    {
        &self.policy
    }

    /// What waits between attempts.
    pub fn sleeper(&self) -> (r: &S)
        ensures
            *r == self.sleeper_spec(),
    {
        &self.sleeper
    }
}

} // verus!
