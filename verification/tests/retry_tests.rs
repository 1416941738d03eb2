use dictation_core::retry::{is_retryable_error, RetryConfig, RetryDecision, SttError};
use std::time::Duration;

#[test]
fn test_delay_calculation() {
    let config = RetryConfig::default();

    // Initial delay: 500ms
    assert_eq!(Duration::from_millis(config.delay_for_attempt(0)), Duration::from_millis(500));
    // Second attempt: 1000ms
    assert_eq!(Duration::from_millis(config.delay_for_attempt(1)), Duration::from_millis(1000));
    // Third attempt: 2000ms
    assert_eq!(Duration::from_millis(config.delay_for_attempt(2)), Duration::from_millis(2000));
    // Fourth attempt: 4000ms
    assert_eq!(Duration::from_millis(config.delay_for_attempt(3)), Duration::from_millis(4000));
}

#[test]
fn test_max_delay_capping() {
    let config = RetryConfig { max_delay_ms: 2_000, ..Default::default() };

    // Should cap at max_delay
    assert_eq!(Duration::from_millis(config.delay_for_attempt(10)), Duration::from_secs(2));
}

#[test]
fn test_is_retryable_error() {
    assert!(is_retryable_error(&SttError::Timeout));
    assert!(is_retryable_error(&SttError::Api("500 Internal Server Error".to_string())));
    assert!(is_retryable_error(&SttError::Api("429 Rate limit exceeded".to_string())));
    assert!(!is_retryable_error(&SttError::Config("Invalid API key".to_string())));
    assert!(!is_retryable_error(&SttError::Audio("Invalid audio format".to_string())));
}

#[test]
fn test_retry_config_defaults() {
    let config = RetryConfig::default();

    assert!(config.max_retries > 0);
    assert!(Duration::from_millis(config.initial_delay_ms).as_millis() > 0);
    assert!(Duration::from_millis(config.max_delay_ms) > Duration::from_millis(config.initial_delay_ms));
}

#[test]
fn retry_config_default_values() {
    let config = RetryConfig::default();
    assert_eq!(config.max_retries, 3);
    assert_eq!(config.initial_delay_ms, 500);
    assert_eq!(config.max_delay_ms, 10_000);
    assert!(config.retry_on_rate_limit);
}

#[test]
fn with_max_retries_keeps_default_delays() {
    let config = RetryConfig::with_max_retries(7);
    assert_eq!(config.max_retries, 7);
    assert_eq!(config.initial_delay_ms, 500);
    assert_eq!(config.max_delay_ms, 10_000);
    assert!(config.retry_on_rate_limit);
}

#[test]
fn delay_is_monotone_up_to_the_cap() {
    let config = RetryConfig::default();
    let mut previous = 0u64;
    for attempt in 0..70u32 {
        let delay = config.delay_for_attempt(attempt);
        assert!(delay >= previous);
        assert!(delay <= config.max_delay_ms);
        previous = delay;
    }
    assert_eq!(config.delay_for_attempt(4), 8_000);
    assert_eq!(config.delay_for_attempt(5), 10_000);
    assert_eq!(config.delay_for_attempt(u32::MAX), 10_000);
}

#[test]
fn delay_edge_cases() {
    let zero = RetryConfig { initial_delay_ms: 0, ..Default::default() };
    assert_eq!(zero.delay_for_attempt(0), 0);
    assert_eq!(zero.delay_for_attempt(1_000_000), 0);

    let no_cap = RetryConfig { initial_delay_ms: 1, max_delay_ms: u64::MAX, ..Default::default() };
    assert_eq!(no_cap.delay_for_attempt(63), 1u64 << 63);
    assert_eq!(no_cap.delay_for_attempt(64), u64::MAX);

    let odd = RetryConfig { initial_delay_ms: 3, max_delay_ms: 20, ..Default::default() };
    assert_eq!(odd.delay_for_attempt(2), 12);
    assert_eq!(odd.delay_for_attempt(3), 20);

    let capped_at_once =
        RetryConfig { initial_delay_ms: 50, max_delay_ms: 10, ..Default::default() };
    assert_eq!(capped_at_once.delay_for_attempt(0), 10);
}

#[test]
fn retryable_error_classes() {
    assert!(is_retryable_error(&SttError::Network("connection reset".to_string())));
    assert!(is_retryable_error(&SttError::Api("Bad gateway (502)".to_string())));
    assert!(is_retryable_error(&SttError::Api("503".to_string())));
    assert!(is_retryable_error(&SttError::Api("upstream 504 timeout".to_string())));
    assert!(is_retryable_error(&SttError::Api("RATE LIMIT reached".to_string())));
    assert!(is_retryable_error(&SttError::Api("Too Many Requests".to_string())));
    assert!(!is_retryable_error(&SttError::Api("401 Unauthorized".to_string())));
    assert!(!is_retryable_error(&SttError::Api(String::new())));
    assert!(!is_retryable_error(&SttError::Api("rate-limit".to_string())));
    assert!(!is_retryable_error(&SttError::Audio("500".to_string())));
    assert!(!is_retryable_error(&SttError::Config("rate limit".to_string())));
}

#[test]
fn decide_backs_off_then_gives_up() {
    let config = RetryConfig::default();
    assert_eq!(config.decide(0, &SttError::Timeout), RetryDecision::RetryAfter(500));
    assert_eq!(config.decide(1, &SttError::Timeout), RetryDecision::RetryAfter(1000));
    assert_eq!(config.decide(2, &SttError::Timeout), RetryDecision::RetryAfter(2000));
    assert_eq!(config.decide(3, &SttError::Timeout), RetryDecision::GiveUp);
    assert_eq!(config.decide(u32::MAX, &SttError::Timeout), RetryDecision::GiveUp);
    assert_eq!(
        config.decide(0, &SttError::Config("bad".to_string())),
        RetryDecision::GiveUp
    );
    assert_eq!(
        config.decide(0, &SttError::Api("400 Bad Request".to_string())),
        RetryDecision::GiveUp
    );
    let none = RetryConfig::with_max_retries(0);
    assert_eq!(none.decide(0, &SttError::Timeout), RetryDecision::GiveUp);
}

#[test]
fn the_rate_limit_flag_decides_whether_rate_limits_are_retried() {
    let on = RetryConfig::default();
    let off = RetryConfig { retry_on_rate_limit: false, ..Default::default() };
    let rate_limited = SttError::Api("429 Rate limit exceeded".to_string());
    assert_eq!(on.decide(0, &rate_limited), RetryDecision::RetryAfter(500));
    assert_eq!(off.decide(0, &rate_limited), RetryDecision::GiveUp);
    assert!(on.retries(&rate_limited));
    assert!(!off.retries(&rate_limited));
    for text in ["Too Many Requests", "rate limit", "429"] {
        assert!(on.retries(&SttError::Api(text.to_string())));
        assert!(!off.retries(&SttError::Api(text.to_string())));
    }
    for text in ["500 Internal Server Error", "502", "503 and 429", "x504x rate limit"] {
        assert!(on.retries(&SttError::Api(text.to_string())));
        assert!(off.retries(&SttError::Api(text.to_string())));
        assert_eq!(off.decide(1, &SttError::Api(text.to_string())), RetryDecision::RetryAfter(1000));
    }
    assert!(off.retries(&SttError::Timeout));
    assert!(off.retries(&SttError::Network("reset".to_string())));
    assert!(!off.retries(&SttError::Audio("429".to_string())));
    assert!(!on.retries(&SttError::Config("500".to_string())));
    assert!(!on.retries(&SttError::Api("404 Not Found".to_string())));

    // One call and no sleep with the flag off.
    let mut calls = 0u32;
    let mut sleeps: Vec<u64> = Vec::new();
    let mut attempt = 0u32;
    let result: Result<String, SttError> = loop {
        calls += 1;
        let e = SttError::Api("429 Rate limit exceeded".to_string());
        match off.decide(attempt, &e) {
            RetryDecision::GiveUp => break Err(e),
            RetryDecision::RetryAfter(delay) => {
                sleeps.push(delay);
                attempt += 1;
            }
        }
    };
    assert!(matches!(result, Err(SttError::Api(_))));
    assert_eq!(calls, 1);
    assert!(sleeps.is_empty());
}
