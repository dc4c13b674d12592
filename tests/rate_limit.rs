use waf_proxy::RateLimiter;

#[test]
fn first_requests_within_limit_then_exceeded() {
    let mut limiter = RateLimiter::new(3, 1000);
    assert!(!limiter.check_and_increment("10.0.0.1", 0));
    assert!(!limiter.check_and_increment("10.0.0.1", 10));
    assert!(!limiter.check_and_increment("10.0.0.1", 20));
    assert!(limiter.check_and_increment("10.0.0.1", 30));
    assert!(limiter.check_and_increment("10.0.0.1", 1000));
    assert_eq!(limiter.entry("10.0.0.1"), Some((0, 5)));
}

#[test]
fn hundred_requests_pass_and_the_next_is_limited() {
    let mut limiter = RateLimiter::new(100, 60_000);
    for i in 0..100u64 {
        assert!(!limiter.check_and_increment("1.2.3.4", i * 100));
    }
    assert!(limiter.check_and_increment("1.2.3.4", 59_000));
}

#[test]
fn expired_window_resets_count() {
    let mut limiter = RateLimiter::new(2, 1000);
    for _ in 0..5 {
        limiter.check_and_increment("k", 100);
    }
    assert_eq!(limiter.entry("k"), Some((100, 5)));
    // exactly the window length is still inside the window
    assert!(limiter.check_and_increment("k", 1100));
    assert!(!limiter.check_and_increment("k", 1101));
    assert_eq!(limiter.entry("k"), Some((1101, 1)));
}

#[test]
fn keys_are_counted_separately() {
    let mut limiter = RateLimiter::new(1, 1000);
    assert!(!limiter.check_and_increment("a", 0));
    assert!(!limiter.check_and_increment("b", 0));
    assert!(limiter.check_and_increment("a", 1));
    assert_eq!(limiter.entry("b"), Some((0, 1)));
    assert_eq!(limiter.entry("c"), None);
}

#[test]
fn zero_limit_blocks_first_request() {
    let mut limiter = RateLimiter::new(0, 1000);
    assert!(limiter.check_and_increment("x", 5));
    assert_eq!(limiter.max_requests(), 0);
    assert_eq!(limiter.window(), 1000);
}

#[test]
fn clock_reading_before_window_start_counts_as_inside() {
    let mut limiter = RateLimiter::new(5, 10);
    assert!(!limiter.check_and_increment("x", 500));
    assert!(!limiter.check_and_increment("x", 100));
    assert_eq!(limiter.entry("x"), Some((500, 2)));
}

#[test]
fn reset_lets_request_through_even_with_zero_limit() {
    let mut limiter = RateLimiter::new(0, 100);
    assert!(limiter.check_and_increment("z", 0));
    assert!(limiter.check_and_increment("z", 50));
    assert!(!limiter.check_and_increment("z", 101));
    assert_eq!(limiter.entry("z"), Some((101, 1)));
    assert!(limiter.check_and_increment("z", 102));
}
