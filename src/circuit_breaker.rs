//! A three-state circuit breaker driven by a monotonic clock in milliseconds.

use vstd::prelude::*;

verus! {

/// The states of a breaker.
#[derive(Debug, Clone, Copy, PartialEq, Eq, Structural)]
pub enum CircuitState {
    Closed,
    Open,
    HalfOpen,
}

/// A breaker that opens after a run of failures, stays open for a timeout,
/// then admits probes until a run of successes closes it again.
#[derive(Debug, Clone, Copy)]
pub struct CircuitBreaker {
    pub failure_count: u32,
    pub success_count: u32,
    pub failure_threshold: u32,
    pub success_threshold: u32,
    pub timeout_ms: u64,
    pub state: CircuitState,
    pub next_attempt_ms: Option<u64>,
}

/// `now + timeout`, held at the largest instant where it would overflow.
pub open spec fn deadline(now: u64, timeout: u64) -> u64 {
    if now + timeout > u64::MAX {
        u64::MAX
    } else {
        (now + timeout) as u64
    }
}

/// A counter plus one, held at its largest value.
pub open spec fn bump(c: u32) -> u32 {
    if c == u32::MAX {
        c
    } else {
        (c + 1) as u32
    }
}

/// `now + timeout`, held at the largest instant where it would overflow.
pub fn deadline_after(now: u64, timeout: u64) -> (r: u64)
    ensures
        r == deadline(now, timeout),
{
    if now > u64::MAX - timeout {
        u64::MAX
    } else {
        now + timeout
    }
}

fn bump_exec(c: u32) -> (r: u32)
    ensures
        r == bump(c),
{
    if c == u32::MAX {
        c
    } else {
        c + 1
    }
}

impl CircuitBreaker {
    /// Whether the breaker rejects work at instant `now`.
    pub open spec fn open_at(self, now: u64) -> bool {
        self.state == CircuitState::Open && match self.next_attempt_ms {
            Some(t) => now < t,
            None => true,
        }
    }

    /// The breaker after a failure observed at `now`.
    pub open spec fn after_failure(self, now: u64) -> CircuitBreaker {
        let b = CircuitBreaker { failure_count: bump(self.failure_count), ..self };
        let reopened = CircuitBreaker {
            state: CircuitState::Open,
            success_count: 0,
            next_attempt_ms: Some(deadline(now, self.timeout_ms)),
            ..b
        };
        match self.state {
            CircuitState::Closed => if b.failure_count >= b.failure_threshold {
                reopened
            } else {
                b
            },
            CircuitState::HalfOpen => reopened,
            CircuitState::Open => match self.next_attempt_ms {
                Some(t) => if now >= t {
                    CircuitBreaker { state: CircuitState::HalfOpen, ..b }
                } else {
                    reopened
                },
                None => reopened,
            },
        }
    }

    /// The breaker after a success.
    pub open spec fn after_success(self) -> CircuitBreaker {
        match self.state {
            CircuitState::Closed => CircuitBreaker {
                failure_count: 0,
                success_count: bump(self.success_count),
                ..self
            },
            CircuitState::HalfOpen => if bump(self.success_count) >= self.success_threshold {
                CircuitBreaker {
                    state: CircuitState::Closed,
                    failure_count: 0,
                    success_count: 0,
                    next_attempt_ms: None,
                    ..self
                }
            } else {
                CircuitBreaker { success_count: bump(self.success_count), ..self }
            },
            CircuitState::Open => CircuitBreaker {
                state: CircuitState::HalfOpen,
                success_count: 1,
                ..self
            },
        }
    }

    /// The breaker that `new` gives.
    pub open spec fn new_spec() -> CircuitBreaker {
        CircuitBreaker {
            failure_count: 0,
            success_count: 0,
            failure_threshold: 10,
            success_threshold: 5,
            timeout_ms: 60_000,
            state: CircuitState::Closed,
            next_attempt_ms: None,
        }
    }

    /// A closed breaker that opens after 10 failures in a row, stays open
    /// for 60 seconds, and closes after 5 successes while probing.
    pub fn new() -> (r: CircuitBreaker)
        ensures
            r == CircuitBreaker::new_spec(),
    {
        CircuitBreaker {
            failure_count: 0,
            success_count: 0,
            failure_threshold: 10,
            success_threshold: 5,
            timeout_ms: 60_000,
            state: CircuitState::Closed,
            next_attempt_ms: None,
        }
    }

    /// Whether the breaker rejects work at instant `now_ms`.
    pub fn is_open(&self, now_ms: u64) -> (r: bool)
        ensures
            r == self.open_at(now_ms),
    {
        match self.state {
            CircuitState::Open => match self.next_attempt_ms {
                Some(next) => now_ms < next,
                None => true,
            },
            _ => false,
        }
    }

    /// Records a failure observed at `now_ms`.
    pub fn record_failure(&mut self, now_ms: u64)
        ensures
            *final(self) == old(self).after_failure(now_ms),
    {
        self.failure_count = bump_exec(self.failure_count);
        match self.state {
            CircuitState::Closed => {
                if self.failure_count >= self.failure_threshold {
                    self.state = CircuitState::Open;
                    self.success_count = 0;
                    self.next_attempt_ms = Some(deadline_after(now_ms, self.timeout_ms));
                }
            },
            CircuitState::HalfOpen => {
                self.state = CircuitState::Open;
                self.success_count = 0;
                self.next_attempt_ms = Some(deadline_after(now_ms, self.timeout_ms));
            },
            CircuitState::Open => {
                match self.next_attempt_ms {
                    Some(next) if now_ms >= next => {
                        self.state = CircuitState::HalfOpen;
                    },
                    _ => {
                        self.success_count = 0;
                        self.next_attempt_ms = Some(deadline_after(now_ms, self.timeout_ms));
                    },
                }
            },
        }
    }

    /// Records a success.
    pub fn record_success(&mut self)
        ensures
            *final(self) == old(self).after_success(),
    {
        match self.state {
            CircuitState::Closed => {
                self.failure_count = 0;
                self.success_count = bump_exec(self.success_count);
            },
            CircuitState::HalfOpen => {
                self.success_count = bump_exec(self.success_count);
                if self.success_count >= self.success_threshold {
                    self.state = CircuitState::Closed;
                    self.failure_count = 0;
                    self.success_count = 0;
                    self.next_attempt_ms = None;
                }
            },
            CircuitState::Open => {
                self.state = CircuitState::HalfOpen;
                self.success_count = 1;
            },
        }
    }

    /// The current state.
    pub fn state(&self) -> (r: CircuitState)
        ensures
            r == self.state,
    {
        self.state
    }
}

/// The breaker after failures observed at each instant of `times`, in order.
pub open spec fn after_failures(b: CircuitBreaker, times: Seq<u64>) -> CircuitBreaker
    decreases times.len(),
{
    if times.len() == 0 {
        b
    } else {
        after_failures(b, times.drop_last()).after_failure(times.last())
    }
}

/// A closed breaker with no failures counted stays closed through fewer
/// consecutive failures than its threshold and opens on the failure that
/// reaches the threshold, with a deadline one timeout after that failure.
pub proof fn lemma_opens_exactly_at_threshold(b: CircuitBreaker, times: Seq<u64>)
    requires
        b.state == CircuitState::Closed,
        b.failure_count == 0,
        1 <= times.len() <= b.failure_threshold,
    ensures
        times.len() < b.failure_threshold ==> after_failures(b, times).state
            == CircuitState::Closed,
        times.len() == b.failure_threshold ==> after_failures(b, times).state
            == CircuitState::Open && after_failures(b, times).next_attempt_ms == Some(
            deadline(times.last(), b.timeout_ms),
        ),
    decreases times.len(),
{
    if times.len() < b.failure_threshold {
        lemma_closed_counts_failures(b, times);
    } else {
        lemma_closed_counts_failures(b, times.drop_last());
    }
}

proof fn lemma_closed_counts_failures(b: CircuitBreaker, times: Seq<u64>)
    requires
        b.state == CircuitState::Closed,
        b.failure_count == 0,
        times.len() < b.failure_threshold,
    ensures
        after_failures(b, times).state == CircuitState::Closed,
        after_failures(b, times).failure_count == times.len(),
        after_failures(b, times).failure_threshold == b.failure_threshold,
        after_failures(b, times).timeout_ms == b.timeout_ms,
    decreases times.len(),
{
    if times.len() > 0 {
        lemma_closed_counts_failures(b, times.drop_last());
    }
}

/// Once an open breaker's deadline has passed it no longer rejects work, and
/// the next observation, failure or success, moves it to probing.
pub proof fn lemma_half_open_after_timeout(b: CircuitBreaker, now: u64, later: u64)
    requires
        b.state == CircuitState::Open,
        b.next_attempt_ms matches Some(t) && now >= t,
    ensures
        !b.open_at(now),
        b.after_failure(now).state == CircuitState::HalfOpen,
        !b.after_failure(now).open_at(later),
        b.after_success().state == CircuitState::HalfOpen,
        !b.after_success().open_at(later),
{
}

} // verus!
