use browser_downloads::error::RetryStrategy;
use browser_downloads::retry_policy::delay_for;

#[test]
fn exponential_backoff_doubles_then_stops() {
    let s = RetryStrategy::ExponentialBackoff {
        max_attempts: 5,
        initial_delay_ms: 1000,
        max_delay_ms: 30000,
        backoff_factor_percent: 200,
    };
    let got: Vec<Option<u64>> = (1..=6).map(|n| delay_for(&s, n)).collect();
    assert_eq!(got, vec![Some(1000), Some(2000), Some(4000), Some(8000), Some(16000), None]);
}

#[test]
fn linear_backoff_grows_then_stops() {
    let s = RetryStrategy::LinearBackoff { max_attempts: 2, delay_increment_ms: 5000 };
    assert_eq!(delay_for(&s, 1), Some(5000));
    assert_eq!(delay_for(&s, 2), Some(10000));
    assert_eq!(delay_for(&s, 3), None);
}

#[test]
fn exponential_backoff_is_capped() {
    let s = RetryStrategy::ExponentialBackoff {
        max_attempts: 10,
        initial_delay_ms: 1000,
        max_delay_ms: 5000,
        backoff_factor_percent: 200,
    };
    assert_eq!(delay_for(&s, 3), Some(4000));
    assert_eq!(delay_for(&s, 4), Some(5000));
    assert_eq!(delay_for(&s, 10), Some(5000));
    let huge = RetryStrategy::ExponentialBackoff {
        max_attempts: u32::MAX,
        initial_delay_ms: u64::MAX,
        max_delay_ms: 7,
        backoff_factor_percent: 300,
    };
    assert_eq!(delay_for(&huge, 1), Some(7));
    assert_eq!(delay_for(&huge, 200), Some(7));
}

#[test]
fn fractional_factor_and_other_strategies() {
    let s = RetryStrategy::ExponentialBackoff {
        max_attempts: 3,
        initial_delay_ms: 2000,
        max_delay_ms: 15000,
        backoff_factor_percent: 150,
    };
    assert_eq!(delay_for(&s, 1), Some(2000));
    assert_eq!(delay_for(&s, 2), Some(3000));
    assert_eq!(delay_for(&s, 3), Some(4500));
    assert_eq!(delay_for(&s, 4), None);
    assert_eq!(delay_for(&RetryStrategy::NoRetry, 1), None);
    let imm = RetryStrategy::Immediate { max_attempts: 2 };
    assert_eq!(delay_for(&imm, 2), Some(100));
    assert_eq!(delay_for(&imm, 3), None);
    assert_eq!(delay_for(&imm, 0), None);
    let lin = RetryStrategy::LinearBackoff { max_attempts: 5, delay_increment_ms: u64::MAX };
    assert_eq!(delay_for(&lin, 2), Some(u64::MAX));
}

#[test]
fn exponential_backoff_rounds_down_once() {
    let small = RetryStrategy::ExponentialBackoff {
        max_attempts: 5,
        initial_delay_ms: 1,
        max_delay_ms: 100,
        backoff_factor_percent: 150,
    };
    assert_eq!(delay_for(&small, 3), Some(2));
    let odd = RetryStrategy::ExponentialBackoff {
        max_attempts: 5,
        initial_delay_ms: 333,
        max_delay_ms: 100_000,
        backoff_factor_percent: 150,
    };
    assert_eq!(delay_for(&odd, 3), Some(749));
    let slow_growth = RetryStrategy::ExponentialBackoff {
        max_attempts: 2000,
        initial_delay_ms: 1,
        max_delay_ms: 1_000,
        backoff_factor_percent: 101,
    };
    // 1.01^1000 is about 20959.
    assert_eq!(delay_for(&slow_growth, 1001), Some(1_000));
    assert_eq!(delay_for(&slow_growth, 70), Some(1));
    let shrinking = RetryStrategy::ExponentialBackoff {
        max_attempts: 10,
        initial_delay_ms: 1000,
        max_delay_ms: 5000,
        backoff_factor_percent: 50,
    };
    assert_eq!(delay_for(&shrinking, 4), Some(125));
}
