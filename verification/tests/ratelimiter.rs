use discord_next::rest::ratelimiter::{
    Enforcement, MalformedHeader, RateLimitHeaders, RateLimitState, RateLimiter,
};

fn headers(global: bool, limit: &str, remaining: &str, reset: &str) -> RateLimitHeaders {
    RateLimitHeaders {
        global,
        limit: Some(limit.as_bytes().to_vec()),
        remaining: Some(remaining.as_bytes().to_vec()),
        reset: Some(reset.as_bytes().to_vec()),
    }
}

#[test]
fn headers_are_parsed() {
    assert_eq!(
        RateLimitState::parse(&headers(false, "5", "4", "1470173023")),
        Ok(Some(RateLimitState {
            limit: 5,
            remaining: 4,
            reset_at: 1470173023
        }))
    );
    assert_eq!(
        RateLimitState::parse(&headers(false, "+5", "0", "-3")),
        Ok(Some(RateLimitState {
            limit: 5,
            remaining: 0,
            reset_at: -3
        }))
    );
}

#[test]
fn missing_headers_say_nothing() {
    let mut h = headers(false, "5", "4", "10");
    h.reset = None;
    assert_eq!(RateLimitState::parse(&h), Ok(None));
    let mut h = headers(false, "5", "4", "10");
    h.limit = None;
    assert_eq!(RateLimitState::parse(&h), Ok(None));
    let none = RateLimitHeaders {
        global: true,
        limit: None,
        remaining: None,
        reset: None,
    };
    assert_eq!(RateLimitState::parse(&none), Ok(None));
}

#[test]
fn malformed_headers_are_errors() {
    for (limit, remaining, reset) in [
        ("", "4", "10"),
        ("5", "four", "10"),
        ("5", "4", "10.5"),
        ("5", "-4", "10"),
        ("5", "4", "99999999999999999999"),
        ("5 ", "4", "10"),
    ] {
        assert_eq!(
            RateLimitState::parse(&headers(false, limit, remaining, reset)),
            Err(MalformedHeader)
        );
    }
    let mut h = headers(false, "5", "4", "10");
    h.limit = Some(vec![0xFF, b'1']);
    assert_eq!(RateLimitState::parse(&h), Err(MalformedHeader));
}

#[test]
fn bucket_counts_down_until_its_window_ends() {
    let mut state = RateLimitState {
        limit: 2,
        remaining: 2,
        reset_at: 100,
    };
    assert_eq!(state.get_remaining(50), Some(2));
    assert!(state.use_one(50));
    assert_eq!(state.remaining, 1);
    assert!(state.use_one(99));
    assert_eq!(state.remaining, 0);
    assert!(!state.use_one(99));
    assert_eq!(state.remaining, 0);
    assert_eq!(state.get_remaining(99), Some(0));
    assert_eq!(state.time_to_reset(99), 1);
    // once the window has ended everything is allowed and nothing is counted
    assert_eq!(state.get_remaining(100), None);
    assert!(state.use_one(100));
    assert_eq!(state.remaining, 0);
    assert_eq!(state.time_to_reset(100), 0);
    assert_eq!(state.time_to_reset(1000), 0);
}

#[test]
fn time_to_reset_spans_the_whole_range() {
    let state = RateLimitState {
        limit: 1,
        remaining: 0,
        reset_at: i64::MAX,
    };
    assert_eq!(state.time_to_reset(i64::MIN), u64::MAX);
    assert_eq!(state.time_to_reset(0), i64::MAX as u64);
    assert_eq!(state.time_to_reset(-5), i64::MAX as u64 + 5);
}

#[test]
fn waits_are_counted_in_seconds() {
    assert_eq!(Enforcement::WaitUntil(100).wait_seconds(40), 60);
    assert_eq!(Enforcement::WaitUntil(100).wait_seconds(100), 0);
    assert_eq!(Enforcement::WaitUntil(100).wait_seconds(101), 0);
    assert_eq!(Enforcement::WaitUntil(i64::MAX).wait_seconds(i64::MIN), u64::MAX);
    assert_eq!(Enforcement::Granted.wait_seconds(0), 0);
    assert_eq!(Enforcement::Contended.wait_seconds(0), 0);
}

#[test]
fn unknown_routes_are_granted() {
    let mut limiter = RateLimiter::new();
    assert_eq!(limiter.wait_needed("/a", 0), None);
    assert_eq!(limiter.enforce_limit("/a", 0), Enforcement::Granted);
    assert!(limiter.use_resource("/a", 0));
}

#[test]
fn enforce_takes_one_from_the_bucket() {
    let mut limiter = RateLimiter::new();
    limiter.update_limits("/a".to_owned(), &headers(false, "2", "2", "100"));
    assert_eq!(limiter.enforce_limit("/a", 10), Enforcement::Granted);
    assert_eq!(limiter.enforce_limit("/a", 10), Enforcement::Granted);
    assert_eq!(limiter.enforce_limit("/a", 10), Enforcement::WaitUntil(100));
    assert_eq!(limiter.enforce_limit("/a", 99), Enforcement::WaitUntil(100));
    // other routes are not held back
    assert_eq!(limiter.enforce_limit("/b", 10), Enforcement::Granted);
    assert_eq!(limiter.enforce_limit("/a", 100), Enforcement::Granted);
}

#[test]
fn empty_bucket_holds_back_until_reset() {
    let mut limiter = RateLimiter::new();
    limiter.update_limits("/a".to_owned(), &headers(false, "5", "0", "1000"));
    for now in [i64::MIN, 0, 1, 999] {
        assert_eq!(limiter.enforce_limit("/a", now), Enforcement::WaitUntil(1000));
        assert!(!limiter.use_resource("/a", now));
    }
    assert_eq!(limiter.enforce_limit("/a", 1000), Enforcement::Granted);
    assert_eq!(limiter.enforce_limit("/a", 1001), Enforcement::Granted);
}

#[test]
fn global_bucket_holds_back_every_route() {
    let mut limiter = RateLimiter::new();
    limiter.update_limits("/a".to_owned(), &headers(true, "1", "0", "50"));
    assert_eq!(limiter.enforce_limit("/a", 10), Enforcement::WaitUntil(50));
    assert_eq!(limiter.enforce_limit("/b", 10), Enforcement::WaitUntil(50));
    limiter.update_limits("/b".to_owned(), &headers(false, "1", "0", "70"));
    // the later of the two resets decides
    assert_eq!(limiter.enforce_limit("/b", 10), Enforcement::WaitUntil(70));
    assert_eq!(limiter.enforce_limit("/b", 60), Enforcement::WaitUntil(70));
    assert_eq!(limiter.enforce_limit("/a", 60), Enforcement::Granted);
    assert_eq!(limiter.wait_needed("/b", 10), Some(70));
    assert_eq!(limiter.wait_needed("/a", 10), Some(50));
}

#[test]
fn both_buckets_are_counted() {
    let mut limiter = RateLimiter::new();
    limiter.update_limits("/x".to_owned(), &headers(true, "2", "2", "100"));
    limiter.update_limits("/a".to_owned(), &headers(false, "5", "5", "100"));
    assert_eq!(limiter.enforce_limit("/a", 0), Enforcement::Granted);
    assert_eq!(limiter.enforce_limit("/b", 0), Enforcement::Granted);
    assert_eq!(limiter.enforce_limit("/a", 0), Enforcement::WaitUntil(100));
}

#[test]
fn the_shared_bucket_as_a_route_is_counted_twice() {
    let mut limiter = RateLimiter::new();
    limiter.update_limits("/x".to_owned(), &headers(true, "1", "1", "100"));
    assert_eq!(limiter.enforce_limit("GLOBAL", 0), Enforcement::Contended);
    assert_eq!(limiter.enforce_limit("GLOBAL", 0), Enforcement::WaitUntil(100));
}

#[test]
fn updates_that_say_nothing_change_nothing() {
    let mut limiter = RateLimiter::new();
    limiter.update_limits("/a".to_owned(), &headers(false, "5", "0", "1000"));
    limiter.update_limits("/a".to_owned(), &headers(false, "5", "x", "2000"));
    let mut missing = headers(false, "5", "3", "2000");
    missing.remaining = None;
    limiter.update_limits("/a".to_owned(), &missing);
    assert_eq!(limiter.enforce_limit("/a", 1), Enforcement::WaitUntil(1000));
    limiter.update_limits("/a".to_owned(), &headers(false, "5", "3", "2000"));
    assert_eq!(limiter.enforce_limit("/a", 1), Enforcement::Granted);
}
