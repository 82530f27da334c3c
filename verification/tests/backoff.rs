//! Tests of the reconnect policy: the delay formula, its monotone growth,
//! and the no-retry rule for a failed first attempt.

use brave_opus::backoff::ReconnectPolicy;
use brave_opus::backoff::RetryDecision;
use brave_opus::backoff::RetryState;

#[test]
fn delay_grows_by_the_factor_and_clamps() {
    let p = ReconnectPolicy::default_policy();
    assert_eq!(p.delay_before_attempt(1), 1000);
    assert_eq!(p.delay_before_attempt(2), 2000);
    assert_eq!(p.delay_before_attempt(3), 4000);
    assert_eq!(p.delay_before_attempt(6), 32000);
    assert_eq!(p.delay_before_attempt(7), 60000);
    assert_eq!(p.delay_before_attempt(8), 60000);
    assert_eq!(p.delay_before_attempt(40), 60000);
}

#[test]
fn delay_is_min_of_power_and_cap() {
    let p = ReconnectPolicy {
        retry_initial: true,
        initial_delay_ms: 7,
        backoff_factor: 3,
        max_delay_ms: 100,
    };
    assert_eq!(p.delay_before_attempt(1), 7);
    assert_eq!(p.delay_before_attempt(2), 21);
    assert_eq!(p.delay_before_attempt(3), 63);
    assert_eq!(p.delay_before_attempt(4), 100);
}

#[test]
fn delay_is_non_decreasing() {
    let p = ReconnectPolicy {
        retry_initial: false,
        initial_delay_ms: 13,
        backoff_factor: 2,
        max_delay_ms: 999,
    };
    let mut prev = 0u64;
    for k in 1..30u64 {
        let d = p.delay_before_attempt(k);
        assert!(d >= prev, "delay shrank at attempt {k}");
        prev = d;
    }
}

#[test]
fn initial_delay_is_clamped_too() {
    let p = ReconnectPolicy {
        retry_initial: false,
        initial_delay_ms: 500,
        backoff_factor: 2,
        max_delay_ms: 100,
    };
    assert_eq!(p.delay_before_attempt(1), 100);
}

#[test]
fn first_attempt_failure_gives_up_without_retry_initial() {
    let p = ReconnectPolicy::default_policy();
    assert!(!p.retry_initial);
    let mut st = RetryState::new();
    let d = st.on_failure(&p);
    assert_eq!(d, RetryDecision::GiveUp);
    assert_eq!(st.failures, 0);
    assert!(!st.connected_once);
}

#[test]
fn failures_after_a_connection_are_retried_with_growing_delay() {
    let p = ReconnectPolicy::default_policy();
    let mut st = RetryState::new();
    st.on_connected();
    assert_eq!(st.on_failure(&p), RetryDecision::RetryAfterMs(1000));
    assert_eq!(st.on_failure(&p), RetryDecision::RetryAfterMs(2000));
    assert_eq!(st.on_failure(&p), RetryDecision::RetryAfterMs(4000));
    st.on_connected();
    assert_eq!(st.failures, 0);
    assert_eq!(st.on_failure(&p), RetryDecision::RetryAfterMs(1000));
}

#[test]
fn retry_initial_true_retries_the_first_attempt() {
    let p = ReconnectPolicy {
        retry_initial: true,
        initial_delay_ms: 250,
        backoff_factor: 2,
        max_delay_ms: 60000,
    };
    let mut st = RetryState::new();
    assert_eq!(st.on_failure(&p), RetryDecision::RetryAfterMs(250));
    assert_eq!(st.on_failure(&p), RetryDecision::RetryAfterMs(500));
}
