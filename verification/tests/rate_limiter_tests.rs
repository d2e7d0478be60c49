//! Token quantities below are in millitokens: one whole token is 1000.

use telegram_mcp::config::RateLimitConfig;
use telegram_mcp::error::Error;
use telegram_mcp::rate_limiter::{RateLimiter, TokenBucket};

fn test_config(max_tokens: u32, refill_rate_millitokens: u64) -> RateLimitConfig {
    RateLimitConfig {
        max_tokens,
        refill_rate_millitokens,
    }
}

#[test]
fn new_limiter_has_max_tokens_available() {
    let config = test_config(50, 2000);
    let limiter = RateLimiter::new(&config);
    assert_eq!(limiter.available_tokens(), 50 * 1000);
}

#[test]
fn available_tokens_returns_correct_initial_value() {
    let config = test_config(100, 5000);
    let limiter = RateLimiter::new(&config);
    assert_eq!(limiter.available_tokens(), 100 * 1000);
}

#[test]
fn acquire_tokens_when_available_succeeds() {
    let config = test_config(50, 2000);
    let limiter = RateLimiter::new(&config);

    let result = limiter.acquire(10);
    assert!(result.is_ok());
    let available = limiter.available_tokens();
    assert!(available >= 39_900 && available <= 40_100); // Allow for timing variance
}

#[test]
fn acquire_exactly_max_tokens_succeeds() {
    let config = test_config(50, 2000);
    let limiter = RateLimiter::new(&config);

    let result = limiter.acquire(50);
    assert!(result.is_ok());
    let available = limiter.available_tokens();
    assert!(available <= 100); // Allow for timing variance
}

#[test]
fn acquire_zero_tokens_is_noop() {
    let config = test_config(50, 2000);
    let limiter = RateLimiter::new(&config);

    let result = limiter.acquire(0);
    assert!(result.is_ok());
    assert_eq!(limiter.available_tokens(), 50 * 1000);
}

#[test]
fn multiple_acquires_reduce_tokens() {
    let config = test_config(50, 2000);
    let limiter = RateLimiter::new(&config);

    limiter.acquire(10).unwrap();
    limiter.acquire(15).unwrap();
    limiter.acquire(5).unwrap();

    let available = limiter.available_tokens();
    assert!(available >= 19_900 && available <= 20_100); // Allow for timing variance
}

#[test]
fn acquire_more_than_available_fails() {
    let config = test_config(50, 2000);
    let limiter = RateLimiter::new(&config);

    let result = limiter.acquire(60);
    assert!(result.is_err());

    match result {
        Err(Error::RateLimit {
            retry_after_seconds,
        }) => {
            // Should need to wait for 10 tokens at 2 tokens/sec = 5 seconds
            assert_eq!(retry_after_seconds, 5);
        }
        _ => panic!("Expected RateLimit error"),
    }
}

#[test]
fn multiple_acquires_eventually_deplete() {
    let config = test_config(50, 2000);
    let limiter = RateLimiter::new(&config);

    // Deplete tokens
    limiter.acquire(20).unwrap();
    limiter.acquire(30).unwrap();

    // Next acquire should fail
    let result = limiter.acquire(5);
    assert!(result.is_err());
}

#[test]
fn rate_limit_error_includes_retry_after() {
    let config = test_config(10, 5000);
    let limiter = RateLimiter::new(&config);

    // Deplete all tokens
    limiter.acquire(10).unwrap();

    // Try to acquire more
    let result = limiter.acquire(20);
    match result {
        Err(Error::RateLimit {
            retry_after_seconds,
        }) => {
            // Need 20 tokens at 5 tokens/sec = 4 seconds
            assert_eq!(retry_after_seconds, 4);
        }
        _ => panic!("Expected RateLimit error with retry_after"),
    }
}

// The refill-over-time behaviour is deterministic on the bucket itself,
// which takes the clock reading as an argument; these tests drive it with
// explicit timestamps instead of sleeping.

#[test]
fn tokens_refill_after_waiting() {
    let mut bucket = TokenBucket::new(50, 10_000, 0); // 10 tokens/sec

    // Deplete tokens
    bucket.try_acquire(50, 0).unwrap();
    assert!(bucket.available() <= 100); // Near zero

    // Wait 1 second - should refill 10 tokens
    bucket.refill(1000);
    let available = bucket.available();
    assert!(available >= 9_000 && available <= 11_000);
}

#[test]
fn refill_does_not_exceed_max_tokens() {
    let mut bucket = TokenBucket::new(50, 10_000, 0);

    // Start with full tokens
    assert_eq!(bucket.available(), 50 * 1000);

    // Wait 2 seconds - should still be capped at 50
    bucket.refill(2000);
    assert_eq!(bucket.available(), 50 * 1000);
}

#[test]
fn partial_refill_works_correctly() {
    let mut bucket = TokenBucket::new(100, 20_000, 0); // 20 tokens/sec

    // Use 50 tokens
    bucket.try_acquire(50, 0).unwrap();
    assert_eq!(bucket.available(), 50 * 1000);

    // Wait 0.5 seconds - should refill 10 tokens
    bucket.refill(500);
    let available = bucket.available();
    assert!(available >= 59_000 && available <= 61_000); // 50 + 10 tokens
}

#[test]
fn acquire_after_refill_succeeds() {
    let mut bucket = TokenBucket::new(50, 10_000, 0);

    // Deplete tokens
    bucket.try_acquire(50, 0).unwrap();

    // Wait for refill, then the refilled tokens can be acquired
    let result = bucket.try_acquire(10, 1000);
    assert!(result.is_ok());
}

#[test]
fn refill_rate_zero_never_refills() {
    let mut bucket = TokenBucket::new(50, 0, 0); // No refill

    bucket.try_acquire(10, 0).unwrap();
    bucket.refill(2000);

    // Should still have 40 tokens (no refill)
    assert_eq!(bucket.available(), 40 * 1000);
}

#[test]
fn max_tokens_zero_always_rate_limited() {
    let config = test_config(0, 5000);
    let limiter = RateLimiter::new(&config);

    let result = limiter.acquire(1);
    assert!(result.is_err());
}

#[test]
fn concurrent_acquires_are_thread_safe() {
    // The callers share one limiter; the lock serializes them, so ten
    // requests of 10 tokens against 100 yield exactly ten grants.
    let config = test_config(100, 10_000);
    let limiter = RateLimiter::new(&config);

    let mut successes = 0;
    for _ in 0..10 {
        if limiter.acquire(10).is_ok() {
            successes += 1;
        }
    }

    // Should have exactly 10 successes (100 tokens / 10 per acquire)
    assert_eq!(successes, 10);
}

#[test]
fn depleted_zero_rate_bucket_reports_unbounded_wait() {
    let mut bucket = TokenBucket::new(5, 0, 0);
    bucket.try_acquire(5, 0).unwrap();
    assert_eq!(bucket.try_acquire(1, 0), Err(u64::MAX));
}

#[test]
fn retry_after_rounds_up() {
    // 3 tokens missing at 2 tokens/sec is 1.5 seconds; the hint rounds up.
    let mut bucket = TokenBucket::new(10, 2000, 0);
    bucket.try_acquire(10, 0).unwrap();
    assert_eq!(bucket.try_acquire(3, 0), Err(2));
}

#[test]
fn fractional_refill_is_preserved() {
    // 0.5 tokens/sec: after 1 second, half a token (500 millitokens).
    let mut bucket = TokenBucket::new(10, 500, 0);
    bucket.try_acquire(10, 0).unwrap();
    bucket.refill(1000);
    assert_eq!(bucket.available(), 500);
}

#[test]
fn refill_clamps_backwards_clock() {
    let mut bucket = TokenBucket::new(10, 1000, 5000);
    bucket.try_acquire(10, 5000).unwrap();
    // A clock reading earlier than the last refill credits nothing.
    bucket.refill(1000);
    assert_eq!(bucket.available(), 0);
}
