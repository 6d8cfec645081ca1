use browser_downloads::circuit_breaker::{CircuitBreaker, CircuitState};

#[test]
fn opens_exactly_on_tenth_failure() {
    let mut b = CircuitBreaker::new();
    for t in 0..9u64 {
        b.record_failure(t);
        assert!(!b.is_open(t));
        assert_eq!(b.state(), CircuitState::Closed);
    }
    b.record_failure(9);
    assert_eq!(b.state(), CircuitState::Open);
    assert!(b.is_open(9));
    assert!(b.is_open(9 + 59_999));
}

#[test]
fn closes_to_probing_after_timeout() {
    let mut b = CircuitBreaker::new();
    for t in 0..10u64 {
        b.record_failure(t);
    }
    assert!(b.is_open(1000));
    let after = 9 + 60_000;
    assert!(!b.is_open(after));
    b.record_failure(after);
    assert_eq!(b.state(), CircuitState::HalfOpen);
    assert!(!b.is_open(after + 1));
}

#[test]
fn failure_while_open_extends_the_outage() {
    let mut b = CircuitBreaker::new();
    for t in 0..10u64 {
        b.record_failure(t);
    }
    b.record_failure(30_000);
    assert_eq!(b.state(), CircuitState::Open);
    assert!(b.is_open(80_000));
    assert!(!b.is_open(90_000));
}

#[test]
fn half_open_closes_after_successes_and_reopens_on_failure() {
    let mut b = CircuitBreaker::new();
    for t in 0..10u64 {
        b.record_failure(t);
    }
    b.record_success();
    assert_eq!(b.state(), CircuitState::HalfOpen);
    for _ in 0..3 {
        b.record_success();
        assert_eq!(b.state(), CircuitState::HalfOpen);
    }
    b.record_success();
    assert_eq!(b.state(), CircuitState::Closed);

    let mut c = CircuitBreaker::new();
    for t in 0..10u64 {
        c.record_failure(t);
    }
    c.record_success();
    c.record_success();
    c.record_failure(100);
    assert_eq!(c.state(), CircuitState::Open);
    assert!(c.is_open(101));
}

#[test]
fn success_while_closed_resets_the_failure_run() {
    let mut b = CircuitBreaker::new();
    for t in 0..9u64 {
        b.record_failure(t);
    }
    b.record_success();
    for t in 10..19u64 {
        b.record_failure(t);
    }
    assert_eq!(b.state(), CircuitState::Closed);
    b.record_failure(19);
    assert_eq!(b.state(), CircuitState::Open);
}
