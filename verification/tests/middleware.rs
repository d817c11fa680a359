use signal_bot::clock::{Stopwatch, Timestamp};
use signal_bot::proxy::error::ProxyError;
use signal_bot::proxy::middleware::{client_ip, rate_limit_middleware, RateLimitState};

#[test]
fn test_rate_limit_state_creation() {
    let mut state = RateLimitState::new(10);
    // Should allow first request
    assert!(state.check_global().is_ok());
}

#[test]
fn test_rate_limit_exhaustion() {
    // Very low limit for testing
    let mut state = RateLimitState::new(1);

    // First request should succeed
    assert!(state.check_global().is_ok());

    // Second request should fail (exceeded 1 per minute)
    assert!(state.check_global().is_err());
}

#[test]
fn test_permissive_rate_limit() {
    let mut state = RateLimitState::permissive();
    // Should allow many requests
    for _ in 0..100 {
        assert!(state.check_global().is_ok());
    }
}

#[test]
fn test_per_ip_rate_limit() {
    let mut state = RateLimitState::new(5);
    // First 5 requests should pass
    for _ in 0..5 {
        assert!(state.check_ip("1.2.3.4"));
    }
    // 6th should fail
    assert!(!state.check_ip("1.2.3.4"));
    // Different IP should still pass
    assert!(state.check_ip("5.6.7.8"));
}

#[test]
fn no_rate_means_ten_per_minute() {
    let mut state = RateLimitState::new(0);
    for _ in 0..10 {
        assert!(state.check_global().is_ok());
    }
    assert!(state.check_global().is_err());
    // An address has at least five.
    for _ in 0..5 {
        assert!(state.check_ip_at("a", 0));
    }
    assert!(!state.check_ip_at("a", 0));
}

#[test]
fn windows_last_a_minute() {
    let minute: u128 = 60_000_000_000;
    let mut state = RateLimitState::new(6);
    for i in 0..6u128 {
        assert!(state.check_ip_at("a", 100 + i));
    }
    assert!(!state.check_ip_at("a", 100 + minute - 1));
    assert_eq!(state.requests_from("a"), 7);
    assert!(state.check_ip_at("a", 100 + minute));
    assert_eq!(state.requests_from("a"), 1);
    assert_eq!(state.requests_from("b"), 0);
}

#[test]
fn requests_that_are_stopped_for_all_are_not_counted() {
    let mut state = RateLimitState::new(5);
    assert!(matches!(state.admit_at(false, "a", 0), Err(ProxyError::RateLimitExceeded)));
    assert_eq!(state.requests_from("a"), 0);
    assert!(state.admit_at(true, "a", 0).is_ok());
    assert_eq!(state.requests_from("a"), 1);
}

#[test]
fn the_first_forwarded_address_counts() {
    assert_eq!(client_ip(Some(" 1.2.3.4 , 5.6.7.8"), Some("9.9.9.9")), "1.2.3.4");
    assert_eq!(client_ip(Some(""), Some("9.9.9.9")), "");
    assert_eq!(client_ip(None, Some("9.9.9.9")), "9.9.9.9");
    assert_eq!(client_ip(None, None), "unknown");
}

#[test]
fn requests_pass_both_limits() {
    let mut state = RateLimitState::new(2);
    assert!(rate_limit_middleware(&mut state, Some("a"), None).is_ok());
    assert!(rate_limit_middleware(&mut state, Some("b"), None).is_ok());
    assert!(matches!(
        rate_limit_middleware(&mut state, Some("c"), None),
        Err(ProxyError::RateLimitExceeded)
    ));
    assert_eq!(state.requests_from("a"), 1);
    assert_eq!(state.requests_from("c"), 0);
}

#[test]
fn stopwatches_never_go_back() {
    let mut watch = Stopwatch::start();
    let mut last = watch.elapsed_nanos();
    let first = last;
    while last < first + 1_000_000 {
        let next = watch.elapsed_nanos();
        assert!(next >= last);
        last = next;
    }
}

#[test]
fn the_time_is_after_the_epoch() {
    let now = Timestamp::now();
    assert!(now.timestamp() >= 0);
    assert!(now.timestamp_subsec_nanos() < 1_000_000_000);
}

#[test]
fn a_rate_is_let_through_at_once() {
    let mut state = RateLimitState::new(200);
    for i in 0..200 {
        assert!(rate_limit_middleware(&mut state, Some(&format!("{}", i)), None).is_ok());
    }
}

#[test]
fn the_first_request_is_let_through_whatever_the_rate() {
    for rate in [0, 1, 7, u32::MAX] {
        assert!(RateLimitState::new(rate).check_global().is_ok());
    }
}
