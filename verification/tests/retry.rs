use kiteconnect::connect::config::{AttemptOutcome, RetryAction, RetryConfig, RetryState};

#[test]
fn exponential_backoff_doubles_up_to_the_maximum() {
    let c = RetryConfig::default();
    assert_eq!(c.retry_delay(0), 200);
    assert_eq!(c.retry_delay(1), 400);
    assert_eq!(c.retry_delay(2), 800);
    assert_eq!(c.retry_delay(4), 3200);
    assert_eq!(c.retry_delay(5), 5000);
    assert_eq!(c.retry_delay(31), 5000);
}

#[test]
fn fixed_delay_without_backoff() {
    let c = RetryConfig { max_retries: 3, base_delay_ms: 250, max_delay_ms: 100, exponential_backoff: false };
    assert_eq!(c.retry_delay(0), 250);
    assert_eq!(c.retry_delay(7), 250);
}

#[test]
fn successful_response_is_accepted() {
    let c = RetryConfig::default();
    let mut s = RetryState::new();
    assert_eq!(s.on_outcome(&c, AttemptOutcome::Response(200)), RetryAction::Accept);
    assert_eq!(s.on_outcome(&c, AttemptOutcome::Response(404)), RetryAction::Accept);
    assert_eq!(s.attempt, 0);
}

#[test]
fn failures_are_retried_until_the_limit() {
    let c = RetryConfig::default();
    let mut s = RetryState::new();
    assert_eq!(s.on_outcome(&c, AttemptOutcome::Response(503)), RetryAction::Retry(200));
    assert_eq!(s.on_outcome(&c, AttemptOutcome::TransportError), RetryAction::Retry(400));
    assert_eq!(s.on_outcome(&c, AttemptOutcome::Response(429)), RetryAction::Retry(800));
    assert_eq!(s.attempt, 3);
    assert_eq!(s.on_outcome(&c, AttemptOutcome::Response(500)), RetryAction::Fail);
    assert_eq!(s.attempt, 3);
}

#[test]
fn no_retries_means_one_attempt() {
    let c = RetryConfig { max_retries: 0, base_delay_ms: 200, max_delay_ms: 5000, exponential_backoff: true };
    let mut s = RetryState::new();
    assert_eq!(s.on_outcome(&c, AttemptOutcome::TransportError), RetryAction::Fail);
}

#[test]
fn fixed_delay_allows_many_retries() {
    let c = RetryConfig { max_retries: 40, base_delay_ms: 10, max_delay_ms: 10, exponential_backoff: false };
    let mut s = RetryState::new();
    for _ in 0..40 {
        assert_eq!(s.on_outcome(&c, AttemptOutcome::Response(502)), RetryAction::Retry(10));
    }
    assert_eq!(s.on_outcome(&c, AttemptOutcome::Response(502)), RetryAction::Fail);
    assert_eq!(s.attempt, 40);
}

#[test]
fn backoff_saturates_for_late_retries() {
    let c = RetryConfig::default();
    assert_eq!(c.retry_delay(32), 5000);
    assert_eq!(c.retry_delay(63), 5000);
    assert_eq!(c.retry_delay(64), 5000);
    assert_eq!(c.retry_delay(u32::MAX), 5000);
    let zero = RetryConfig { max_retries: 3, base_delay_ms: 0, max_delay_ms: 5000, exponential_backoff: true };
    assert_eq!(zero.retry_delay(100), 0);
    let wide = RetryConfig { max_retries: 3, base_delay_ms: 1, max_delay_ms: u64::MAX, exponential_backoff: true };
    assert_eq!(wide.retry_delay(63), 1u64 << 63);
    assert_eq!(wide.retry_delay(64), u64::MAX);
}

#[test]
fn many_retries_with_backoff_are_accepted() {
    let c = RetryConfig { max_retries: 40, base_delay_ms: 200, max_delay_ms: 5000, exponential_backoff: true };
    let mut s = RetryState::new();
    assert_eq!(s.on_outcome(&c, AttemptOutcome::Response(200)), RetryAction::Accept);
    let mut retries = 0;
    loop {
        match s.on_outcome(&c, AttemptOutcome::Response(503)) {
            RetryAction::Retry(d) => {
                assert!(d <= 5000);
                retries += 1;
            }
            RetryAction::Fail => break,
            RetryAction::Accept => panic!("a server error was accepted"),
        }
    }
    assert_eq!(retries, 40);
    assert_eq!(s.attempt, 40);
}
