use auth_session::rate_limit::{check_window, prune_keep, RateLimiter};

#[test]
fn test_rate_limit_sliding_window() {
    // With a threshold of 5 in a 180 s window: five checks succeed, the
    // sixth fails with a positive retry hint, and once the window has slid
    // past the oldest attempt a check succeeds again.
    let mut limiter = RateLimiter::new(100, 5, 180);
    let now: u64 = 1_000;
    for _ in 0..5 {
        assert!(limiter.check_email_limit("k", now).is_ok());
    }
    match limiter.check_email_limit("k", now) {
        Err(retry_after) => assert_eq!(retry_after, 180),
        Ok(()) => panic!("sixth attempt must be rejected"),
    }
    // 179 s later the oldest attempt is still inside the window.
    assert!(limiter.check_email_limit("k", now + 179).is_err());
    // 180 s later it has aged out, so the next attempt is admitted.
    assert!(limiter.check_email_limit("k", now + 180).is_ok());
}

#[test]
fn test_rate_limit_retry_hint_counts_down() {
    let mut limiter = RateLimiter::new(100, 2, 100);
    assert!(limiter.check_email_limit("k", 500).is_ok());
    assert!(limiter.check_email_limit("k", 510).is_ok());
    match limiter.check_email_limit("k", 530) {
        Err(retry_after) => assert_eq!(retry_after, 70),
        Ok(()) => panic!("third attempt must be rejected"),
    }
}

#[test]
fn test_reset_allows_next_check() {
    // A key at its limit is admitted again right after a reset.
    let mut limiter = RateLimiter::new(100, 3, 180);
    let now: u64 = 1_000;
    for _ in 0..3 {
        assert!(limiter.check_email_limit("k", now).is_ok());
    }
    assert!(limiter.check_email_limit("k", now).is_err());
    limiter.reset_email_limit("k");
    assert!(limiter.check_email_limit("k", now).is_ok());
}

#[test]
fn test_burst_admits_exactly_threshold() {
    // Eight same-instant checks against one key with threshold five admit
    // exactly five and reject three, in order.
    let mut limiter = RateLimiter::new(100, 5, 60);
    let now: u64 = 42;
    let mut admitted = 0;
    let mut rejected = 0;
    for _ in 0..8 {
        match limiter.check_email_limit("k", now) {
            Ok(()) => admitted += 1,
            Err(_) => rejected += 1,
        }
    }
    assert_eq!(admitted, 5);
    assert_eq!(rejected, 3);
}

#[test]
fn test_ip_and_email_keyspaces_independent() {
    let mut limiter = RateLimiter::new(3, 5, 180);
    let now: u64 = 1_000;
    for _ in 0..3 {
        assert!(limiter.check_ip_limit("1.2.3.4", now).is_ok());
    }
    assert!(limiter.check_ip_limit("1.2.3.4", now).is_err());
    // The email keyspace is untouched by address-gate traffic, and other
    // addresses are unaffected.
    assert!(limiter.check_email_limit("1.2.3.4", now).is_ok());
    assert!(limiter.check_ip_limit("5.6.7.8", now).is_ok());
}

#[test]
fn test_cleanup_drops_stale_keys() {
    let mut limiter = RateLimiter::new(100, 2, 100);
    assert!(limiter.check_email_limit("stale", 1_000).is_ok());
    assert!(limiter.check_email_limit("stale", 1_000).is_ok());
    assert!(limiter.check_email_limit("stale", 1_000).is_err());
    limiter.cleanup(2_000);
    // After the sweep the stale window is gone and the key starts fresh.
    assert!(limiter.check_email_limit("stale", 2_000).is_ok());
    limiter.record_failed_attempt("stale");
}

#[test]
fn test_check_window_prunes_before_threshold() {
    // An attempt arriving exactly when the oldest entry ages out is
    // admitted: pruning happens before the threshold test.
    let mut times: Vec<u64> = vec![100, 150];
    let r = check_window(&mut times, 200, 2, 100);
    assert!(r.is_ok());
    assert_eq!(times, vec![150, 200]);
}

#[test]
fn test_prune_keep_evicts_aged_attempts() {
    let mut times: Vec<u64> = vec![10, 500, 900, 950];
    let nonempty = prune_keep(&mut times, 1_000, 100);
    assert!(nonempty);
    assert_eq!(times, vec![950]);
    let empty = prune_keep(&mut times, 2_000, 100);
    assert!(!empty);
    assert!(times.is_empty());
}
