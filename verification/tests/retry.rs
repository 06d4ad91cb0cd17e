use std::time::Duration;

use rutmf::api::error::is_retryable_status;
use rutmf::api::retry::{is_idempotent, jittered, mix_permille, retry_after_at};
use rutmf::api::{
    Error, Method, RetryPolicy, RetryRun, RetryStep, RetryTransport, TmfResponse, TransportError,
};
use rutmf::time::httpdate;

#[test]
fn backoff_doubles_and_then_caps() {
    let policy = RetryPolicy::default()
        .base_delay(Duration::from_millis(100))
        .max_delay(Duration::from_millis(350))
        .jitter(false);

    assert_eq!(policy.delay_for(1), Duration::from_millis(100));
    assert_eq!(policy.delay_for(2), Duration::from_millis(200));
    assert_eq!(policy.delay_for(3), Duration::from_millis(350), "capped");
    assert_eq!(
        policy.delay_for(30),
        Duration::from_millis(350),
        "no overflow"
    );
}

#[test]
fn jitter_stays_inside_the_backoff_window() {
    let policy = RetryPolicy::default().base_delay(Duration::from_millis(100));
    for attempt in 1..6 {
        let window = policy.window_for(attempt);
        for _ in 0..50 {
            assert!(policy.delay_for(attempt) <= window);
        }
    }
}

#[test]
fn the_epoch_converts_exactly() {
    assert_eq!(httpdate("Thu, 01 Jan 1970 00:00:00 GMT"), Some(0));
    assert_eq!(httpdate("Sun, 06 Nov 1994 08:49:37 GMT"), Some(784_111_777));
    assert_eq!(httpdate("not a date"), None);
}

#[test]
fn a_date_before_the_epoch_is_the_epoch_rather_than_an_underflow() {
    for raw in [
        "Mon, 01 Jan 1900 00:00:00 GMT",
        "Wed, 31 Dec 1969 23:59:59 GMT",
        "Fri, 01 Jan 0001 00:00:00 GMT",
    ] {
        assert_eq!(httpdate(raw), Some(0), "{raw}");
    }
}

#[test]
fn httpdate_reads_leap_days_and_rejects_other_formats() {
    assert_eq!(httpdate("Thu, 29 Feb 2024 12:00:00 GMT"), Some(1_709_208_000));
    assert_eq!(httpdate("Sunday, 06-Nov-94 08:49:37 GMT"), None);
    assert_eq!(httpdate("Sun, 06 Nov 1994 08:49:37 UTC"), None);
    assert_eq!(httpdate("Sun, 06 Foo 1994 08:49:37 GMT"), None);
    assert_eq!(httpdate("Sun, 06 Nov 1994 08:49 GMT"), None);
}

fn response(status: u16, headers: &[(&str, &str)]) -> TmfResponse {
    TmfResponse::new(
        status,
        headers.iter().map(|(n, v)| (n.to_string(), Some(v.to_string()))).collect(),
        Vec::new(),
    )
}

#[test]
fn retry_after_reads_an_http_date_relative_to_the_server_clock() {
    let r = response(
        503,
        &[
            ("retry-after", "Sun, 06 Nov 1994 08:49:47 GMT"),
            ("date", "Sun, 06 Nov 1994 08:49:37 GMT"),
        ],
    );
    assert_eq!(retry_after_at(&r, 0), Some(Duration::from_secs(10)));
}

#[test]
fn a_past_retry_after_date_means_now() {
    let r = response(
        503,
        &[
            ("retry-after", "Sun, 06 Nov 1994 08:49:37 GMT"),
            ("date", "Sun, 06 Nov 1994 08:49:47 GMT"),
        ],
    );
    assert_eq!(retry_after_at(&r, 0), Some(Duration::ZERO));
    let old = response(503, &[("retry-after", "Mon, 01 Jan 1900 00:00:00 GMT")]);
    assert_eq!(retry_after_at(&old, 1_700_000_000), Some(Duration::ZERO));
}

#[test]
fn retry_after_in_seconds_and_without_a_date_header() {
    assert_eq!(retry_after_at(&response(429, &[("Retry-After", " 3 ")]), 5), Some(Duration::from_secs(3)));
    let r = response(503, &[("retry-after", "Thu, 01 Jan 1970 00:01:40 GMT")]);
    assert_eq!(retry_after_at(&r, 40), Some(Duration::from_secs(60)));
    assert_eq!(retry_after_at(&response(503, &[]), 0), None);
    assert_eq!(retry_after_at(&response(503, &[("retry-after", "soon")]), 0), None);
}

#[test]
fn only_idempotent_methods_are_retried() {
    let policy = RetryPolicy::default();
    assert!(policy.retries(&Method::Get));
    assert!(policy.retries(&Method::Head));
    assert!(policy.retries(&Method::Put));
    assert!(policy.retries(&Method::Delete));
    assert!(!policy.retries(&Method::Post));
    assert!(!policy.retries(&Method::Patch));
    assert!(!policy.max_retries(0).retries(&Method::Get));
    assert!(!is_idempotent(&Method::Options));
}

#[test]
fn retryable_statuses_are_408_429_and_5xx_but_501() {
    for s in [408, 429, 500, 502, 503, 504, 599] {
        assert!(is_retryable_status(s), "{s}");
    }
    for s in [200, 400, 404, 412, 501, 600] {
        assert!(!is_retryable_status(s), "{s}");
    }
}

fn quiet() -> RetryPolicy {
    RetryPolicy::default()
        .base_delay(Duration::from_millis(100))
        .jitter(false)
}

#[test]
fn the_backoff_is_waited_out_between_failures() {
    let p = quiet();
    let outcome = Ok(response(503, &[]));
    assert_eq!(p.wait_with(1, &outcome, 0, 0), Some(Duration::from_millis(100)));
    assert_eq!(p.wait_with(2, &outcome, 0, 0), Some(Duration::from_millis(200)));
}

#[test]
fn gives_up_after_max_retries() {
    let p = quiet().max_retries(2);
    let outcome = Ok(response(502, &[]));
    assert!(p.next_wait(2, &outcome).is_some());
    assert!(p.next_wait(3, &outcome).is_none(), "one attempt plus two retries");
}

#[test]
fn does_not_retry_a_client_error() {
    assert!(quiet().next_wait(1, &Ok(response(404, &[]))).is_none());
}

#[test]
fn honours_retry_after_in_seconds() {
    let outcome = Ok(response(429, &[("retry-after", "3")]));
    assert_eq!(quiet().next_wait(1, &outcome), Some(Duration::from_secs(3)));
    let ignored = quiet().honor_retry_after(false);
    assert_eq!(ignored.next_wait(1, &outcome), Some(Duration::from_millis(100)));
}

#[test]
fn a_long_retry_after_ends_the_retries_rather_than_shortening_the_wait() {
    let outcome = Ok(response(429, &[("retry-after", "300")]));
    let p = quiet().max_retry_after(Duration::from_secs(60));
    assert_eq!(p.next_wait(1, &outcome), None);
}

#[test]
fn a_retry_after_within_the_limit_is_waited_out_in_full() {
    let outcome = Ok(response(503, &[("retry-after", "30")]));
    assert_eq!(quiet().next_wait(1, &outcome), Some(Duration::from_secs(30)));
}

#[test]
fn a_transport_failure_is_retried_and_other_errors_are_not() {
    let broken: Result<TmfResponse, Error> = Err(Error::Transport(TransportError::new("connection reset")));
    assert_eq!(quiet().next_wait(1, &broken), Some(Duration::from_millis(100)));
    let refused: Result<TmfResponse, Error> = Err(Error::NoEntityTag);
    assert_eq!(quiet().next_wait(1, &refused), None);
}

#[test]
fn a_jittered_delay_is_the_window_scaled_by_the_draw() {
    let window = Duration::from_millis(1000);
    assert_eq!(jittered(window, 0), Duration::ZERO);
    assert_eq!(jittered(window, 500), Duration::from_millis(500));
    assert_eq!(jittered(window, 999), Duration::from_millis(999));
    assert!(mix_permille(123_456_789) < 1000);
    assert_eq!(mix_permille(0), 0);
    let p = RetryPolicy::default().base_delay(Duration::from_millis(100));
    assert_eq!(p.delay_with(2, 250), Duration::from_millis(50));
}

#[test]
fn the_window_saturates_instead_of_overflowing() {
    let p = RetryPolicy::default()
        .base_delay(Duration::MAX)
        .max_delay(Duration::MAX)
        .jitter(false);
    assert_eq!(p.window_for(40), Duration::MAX);
    assert_eq!(p.window_for(0), Duration::MAX);
}

#[test]
fn the_default_policy() {
    let p = RetryPolicy::default();
    assert_eq!(p.max_retries, 3);
    assert_eq!(p.base_delay, Duration::from_millis(250));
    assert_eq!(p.max_delay, Duration::from_secs(10));
    assert!(p.honor_retry_after);
    assert_eq!(p.max_retry_after, Duration::from_secs(60));
    assert!(p.jitter);
    let t = RetryTransport::with_defaults(7u8);
    assert_eq!(*t.inner(), 7);
    assert_eq!(t.policy().max_retries, 3);
}

fn attempts_against(policy: RetryPolicy, method: Method, status: u16) -> u64 {
    let mut run = RetryRun::start(policy, &method);
    loop {
        let outcome: Result<TmfResponse, Error> = Ok(TmfResponse::new(status, vec![], vec![]));
        match run.record(&outcome) {
            RetryStep::Answer => return run.attempts(),
            RetryStep::Wait(_) => {}
        }
    }
}

#[test]
fn a_run_sends_a_get_the_whole_budget_against_a_failing_server() {
    let policy = RetryPolicy::default().max_retries(3).base_delay(Duration::from_millis(1));
    assert_eq!(attempts_against(policy, Method::Get, 502), 4);
    assert_eq!(attempts_against(policy, Method::Get, 200), 1);
    assert_eq!(attempts_against(policy, Method::Get, 404), 1);
}

#[test]
fn a_run_sends_a_post_or_a_zero_budget_once() {
    let policy = RetryPolicy::default().max_retries(3).base_delay(Duration::from_millis(1));
    assert_eq!(attempts_against(policy, Method::Post, 502), 1);
    assert_eq!(attempts_against(policy, Method::Patch, 502), 1);
    let none = RetryPolicy::default().max_retries(0);
    assert_eq!(attempts_against(none, Method::Get, 502), 1);
}
