use accesscore::ratelimit::BucketReading;
use accesscore::ratelimit::CacheReadResult;
use accesscore::ratelimit::RateLimitConfig;
use accesscore::ratelimit::RateLimitVerdict;
use accesscore::ratelimit::ratelimit_check;
use accesscore::ratelimit::ratelimit_decide;
use accesscore::ratelimit::writeback;

#[test]
fn fresh_bucket_admits_first_request() {
    let cfg = RateLimitConfig::global();
    let outcome = ratelimit_decide(&cfg, None, 1_000_000);
    assert!(outcome.allowed);
    assert_eq!(outcome.used_tokens, 1);
    assert_eq!(outcome.single_refill_in_ms, 200);
    assert_eq!(outcome.remaining(&cfg), 9);
}

#[test]
fn eleven_requests_in_one_window_yield_one_rejection() {
    let cfg = RateLimitConfig::global();
    let now: i64 = 1_000_000;
    let mut cache: Option<BucketReading> = None;
    let mut expected_remaining = 9;
    for _ in 0..10 {
        let outcome = ratelimit_decide(&cfg, cache.as_ref(), now);
        assert!(outcome.allowed);
        assert_eq!(outcome.remaining(&cfg), expected_remaining);
        cache = Some(writeback(&outcome, now));
        expected_remaining -= 1;
    }
    let reading = cache.unwrap();
    assert_eq!(reading.used_tokens, 10);
    let eleventh = ratelimit_decide(&cfg, Some(&reading), now);
    assert!(!eleventh.allowed);
    assert_eq!(eleventh.used_tokens, 10);
    assert_eq!(eleventh.remaining(&cfg), 0);
    // The next token refills a full interval after the last counted request.
    assert_eq!(eleventh.retry_after_ms(), 200);
}

#[test]
fn one_token_refills_after_the_interval() {
    let cfg = RateLimitConfig::global();
    let now: i64 = 1_000_000;
    let full = BucketReading { used_tokens: 10, last_request_ts: now };
    let blocked = ratelimit_decide(&cfg, Some(&full), now + 150);
    assert!(!blocked.allowed);
    // 150 ms into the window, the next token is 50 ms away.
    assert_eq!(blocked.retry_after_ms(), 50);
    let refilled = ratelimit_decide(&cfg, Some(&full), now + 200);
    assert!(refilled.allowed);
    assert_eq!(refilled.used_tokens, 10);
    assert_eq!(refilled.remaining(&cfg), 0);
}

#[test]
fn decay_floors_at_zero() {
    let cfg = RateLimitConfig::global();
    let stale = BucketReading { used_tokens: 3, last_request_ts: 0 };
    let outcome = ratelimit_decide(&cfg, Some(&stale), 1_000_000);
    assert!(outcome.allowed);
    assert_eq!(outcome.used_tokens, 1);
}

#[test]
fn refill_header_counts_outstanding_tokens() {
    let cfg = RateLimitConfig::global();
    let reading = BucketReading { used_tokens: 4, last_request_ts: 1_000_000 };
    let outcome = ratelimit_decide(&cfg, Some(&reading), 1_000_050);
    assert!(outcome.allowed);
    assert_eq!(outcome.used_tokens, 5);
    assert_eq!(outcome.single_refill_in_ms, 150);
    assert_eq!(outcome.refill_header_ms(&cfg), 150 + 4 * 200);
}

#[test]
fn cache_entry_lives_one_full_refill() {
    let cfg = RateLimitConfig::global();
    assert_eq!(cfg.ttl_ms(), 2000);
}

#[test]
fn failed_cache_read_fails_closed() {
    let cfg = RateLimitConfig::global();
    let verdict = ratelimit_check(&cfg, &CacheReadResult::Failed, 1_000_000);
    assert!(matches!(verdict, RateLimitVerdict::CacheError));
}

#[test]
fn cache_verdicts_follow_the_bucket_rule() {
    let cfg = RateLimitConfig::global();
    let fresh = ratelimit_check(&cfg, &CacheReadResult::Miss, 1_000_000);
    match fresh {
        RateLimitVerdict::Proceed(o) => {
            assert!(o.allowed);
            assert_eq!(o.used_tokens, 1);
        }
        other => panic!("expected a fresh bucket to admit, got {:?}", other),
    }
    let full = BucketReading { used_tokens: 10, last_request_ts: 1_000_000 };
    let blocked = ratelimit_check(&cfg, &CacheReadResult::Hit(full), 1_000_000);
    match blocked {
        RateLimitVerdict::Reject(o) => {
            assert!(!o.allowed);
            assert_eq!(o.retry_after_ms(), 200);
        }
        other => panic!("expected a full bucket to reject, got {:?}", other),
    }
}
