use browser_downloads::circuit_breaker::CircuitState;
use browser_downloads::retry_manager::RetryManager;

#[test]
fn severe_failures_open_the_task_breaker() {
    let mut m = RetryManager::new();
    for t in 0..3u64 {
        assert_eq!(m.should_retry("a", "No space left on device", t), None);
    }
    let st = m.get_retry_history("a").unwrap();
    assert!(st.is_circuit_open);
    assert_eq!(st.circuit_open_until_ms, Some(2 + 300_000));
    assert_eq!(st.attempts.len(), 3);
    // While the task breaker is open, even a retryable failure is vetoed and
    // no attempt is recorded.
    assert_eq!(m.should_retry("a", "Connection timed out", 10), None);
    assert_eq!(m.get_retry_history("a").unwrap().attempts.len(), 3);
}

#[test]
fn low_severity_failure_does_not_open_the_task_breaker() {
    let mut m = RetryManager::new();
    assert_eq!(m.should_retry("b", "Permission denied", 0), None);
    assert_eq!(m.should_retry("b", "slow network", 1), Some(10000));
    assert_eq!(m.should_retry("b", "disk full", 2), None);
    let st = m.get_retry_history("b").unwrap();
    assert!(!st.is_circuit_open);
    assert_eq!(st.attempts.len(), 3);
    assert_eq!(st.attempts[2].attempt_number, 3);
}

#[test]
fn success_clears_history_and_restarts_numbering() {
    let mut m = RetryManager::new();
    assert_eq!(m.should_retry("c", "Connection timed out", 0), Some(1000));
    assert_eq!(m.should_retry("c", "Connection timed out", 1000), Some(2000));
    m.record_success("c");
    assert!(m.get_retry_history("c").is_none());
    assert_eq!(m.should_retry("c", "Connection timed out", 5000), Some(1000));
    let st = m.get_retry_history("c").unwrap();
    assert_eq!(st.attempts.len(), 1);
    assert_eq!(st.attempts[0].attempt_number, 1);
    assert_eq!(m.get_next_retry_time("c"), Some(6000));
}

#[test]
fn policy_ceiling_ends_retries() {
    let mut m = RetryManager::new();
    assert_eq!(m.should_retry("d", "slow download", 0), Some(5000));
    assert_eq!(m.should_retry("d", "slow download", 1), Some(10000));
    assert_eq!(m.should_retry("d", "slow download", 2), None);
    assert_eq!(m.get_next_retry_time("d"), None);
}

#[test]
fn open_global_breaker_vetoes_every_task() {
    let mut m = RetryManager::new();
    for t in 0..10u64 {
        let id = format!("t{}", t);
        assert_eq!(m.should_retry(&id, "Connection timed out", t), Some(1000));
    }
    assert_eq!(m.global_circuit_state(), CircuitState::Open);
    assert!(m.global_circuit_open(100));
    assert_eq!(m.should_retry("fresh", "Connection timed out", 100), None);
    assert!(m.get_retry_history("fresh").is_none());
}

#[test]
fn cleanup_drops_stale_states() {
    let mut m = RetryManager::new();
    assert_eq!(m.should_retry("old", "Connection timed out", 0), Some(1000));
    assert_eq!(m.should_retry("new", "Connection timed out", 3_000_000), Some(1000));
    m.cleanup_expired_states(3_600_000);
    assert!(m.get_retry_history("old").is_none());
    assert!(m.get_retry_history("new").is_some());
    m.reset_task_state("new");
    assert!(m.get_retry_history("new").is_none());
}
