//! Per-task retry bookkeeping and the global circuit breaker: decides, for
//! each failure, whether and when a task is tried again.

use vstd::prelude::*;
use crate::circuit_breaker::{deadline, deadline_after, CircuitBreaker, CircuitState};
use crate::error::{
    classified, is_severe, retryable, severity_of, strategy_of, DownloadError, ErrorSeverity,
    ErrorView, RetryStrategy,
};
use crate::registry::Registry;
use crate::retry_policy::{delay_for, delay_spec};

verus! {

/// How long a task's own breaker stays open, in milliseconds.
pub const TASK_CIRCUIT_COOLDOWN_MS: u64 = 300_000;

/// How many of the latest attempts are looked at for severe failures.
pub const SEVERE_WINDOW: usize = 5;

/// How many severe failures in that window open a task's breaker.
pub const SEVERE_LIMIT: usize = 3;

/// How long after its latest attempt a task's state counts as abandoned.
pub const STALE_AFTER_MS: u64 = 3_600_000;

/// One recorded failure of a task.
pub struct RetryAttempt {
    pub attempt_number: u32,
    pub error: DownloadError,
    pub timestamp_ms: u64,
    pub next_retry_at_ms: Option<u64>,
}

/// What is known of one task's failures.
pub struct TaskRetryState {
    pub task_id: String,
    pub attempts: Vec<RetryAttempt>,
    pub strategy: RetryStrategy,
    pub is_circuit_open: bool,
    pub circuit_open_until_ms: Option<u64>,
}

/// Retry state of every task that has failed, and the breaker shared by all.
pub struct RetryManager {
    task_states: Registry<TaskRetryState>,
    global_circuit_breaker: CircuitBreaker,
}

/// The number of severe failures among `s`.
pub open spec fn count_severe(s: Seq<RetryAttempt>) -> nat
    decreases s.len(),
{
    if s.len() == 0 {
        0
    } else {
        count_severe(s.drop_last()) + if is_severe(severity_of(s.last().error@)) {
            1nat
        } else {
            0nat
        }
    }
}

/// Where the window of the latest attempts starts.
pub open spec fn window_start(n: nat) -> nat {
    if n > SEVERE_WINDOW {
        (n - SEVERE_WINDOW) as nat
    } else {
        0
    }
}

/// The number of severe failures among the latest attempts.
pub open spec fn recent_severe(s: Seq<RetryAttempt>) -> nat {
    count_severe(s.subrange(window_start(s.len()) as int, s.len() as int))
}

/// A task breaker that is open and whose cool-down has not passed at `now`.
pub open spec fn flags_block(flags: (bool, Option<u64>), now: u64) -> bool {
    flags.0 && (flags.1 matches Some(u) && now < u)
}

/// The task breaker flags after an expired cool-down is cleared.
pub open spec fn flags_cleared(flags: (bool, Option<u64>), now: u64) -> (bool, Option<u64>) {
    if flags.0 && (flags.1 matches Some(u) && now >= u) {
        (false, None)
    } else {
        flags
    }
}

/// The number given to the attempt after `n` recorded ones.
pub open spec fn next_attempt_number(n: nat) -> u32 {
    if n >= u32::MAX {
        u32::MAX
    } else {
        (n + 1) as u32
    }
}

/// `a` records failure `e` as attempt `number` at `now`, due again after
/// `delay` where there is one.
pub open spec fn attempt_records(a: RetryAttempt, number: u32, e: ErrorView, now: u64, delay: Option<nat>) -> bool {
    &&& a.attempt_number == number
    &&& a.error@ == e
    &&& a.timestamp_ms == now
    &&& match delay {
        Some(d) => a.next_retry_at_ms == Some(deadline(now, d as u64)),
        None => a.next_retry_at_ms is None,
    }
}

impl TaskRetryState {
    /// The breaker flags as a pair.
    pub open spec fn flags(self) -> (bool, Option<u64>) {
        (self.is_circuit_open, self.circuit_open_until_ms)
    }
}

impl RetryManager {
    /// Retry state by task id.
    pub closed spec fn states(&self) -> Map<Seq<char>, TaskRetryState> {
        self.task_states@
    }

    /// The global breaker.
    pub closed spec fn breaker(&self) -> CircuitBreaker {
        self.global_circuit_breaker
    }

    /// Each state is filed under its own task id.
    pub closed spec fn wf(&self) -> bool {
        &&& self.task_states.wf()
        &&& forall|k: Seq<char>| #[trigger] self.task_states@.contains_key(k) ==> self.task_states@[k].task_id@ == k
    }

    /// The attempts recorded for `id`, empty where there are none.
    pub open spec fn attempts_of(&self, id: Seq<char>) -> Seq<RetryAttempt> {
        if self.states().contains_key(id) {
            self.states()[id].attempts@
        } else {
            Seq::empty()
        }
    }

    /// The task breaker flags of `id`, closed where it has no state.
    pub open spec fn flags_of(&self, id: Seq<char>) -> (bool, Option<u64>) {
        if self.states().contains_key(id) {
            self.states()[id].flags()
        } else {
            (false, None)
        }
    }
}

/// `m1` and the answer `r` are what `should_retry` makes of `m0` for a
/// failure of task `id` with text `msg` at `now`.
pub open spec fn failure_recorded(
    m0: RetryManager,
    m1: RetryManager,
    id: Seq<char>,
    msg: Seq<char>,
    now: u64,
    r: Option<u64>,
) -> bool {
    let e = classified(msg);
    let strategy = strategy_of(e);
    if m0.breaker().open_at(now) {
        m1.states() == m0.states() && m1.breaker() == m0.breaker() && r is None
    } else {
        let st = m1.states()[id];
        let prior = m0.attempts_of(id);
        &&& m1.states().contains_key(id)
        &&& m1.states() == m0.states().insert(id, st)
        &&& st.task_id@ == id
        &&& st.strategy == strategy
        &&& if flags_block(m0.flags_of(id), now) {
            &&& st.attempts@ == prior
            &&& st.flags() == m0.flags_of(id)
            &&& m1.breaker() == m0.breaker()
            &&& r is None
        } else {
            let number = next_attempt_number(prior.len());
            let delay = delay_spec(strategy, number as nat);
            &&& st.attempts@.len() == prior.len() + 1
            &&& st.attempts@.drop_last() == prior
            &&& attempt_records(st.attempts@.last(), number, e, now, delay)
            &&& if recent_severe(st.attempts@) >= SEVERE_LIMIT {
                st.flags() == (true, Some(deadline(now, TASK_CIRCUIT_COOLDOWN_MS)))
            } else {
                st.flags() == flags_cleared(m0.flags_of(id), now)
            }
            &&& m1.breaker() == m0.breaker().after_failure(now)
            &&& match r {
                Some(d) => retryable(e) && delay == Some(d as nat),
                None => !retryable(e) || delay is None,
            }
        }
    }
}

/// `m1` is what `record_success` makes of `m0` for task `id`.
pub open spec fn success_recorded(m0: RetryManager, m1: RetryManager, id: Seq<char>) -> bool {
    m1.states() == m0.states().remove(id) && m1.breaker() == m0.breaker().after_success()
}

/// A state whose latest attempt is at least `STALE_AFTER_MS` old at `now`,
/// or that holds no attempt.
pub open spec fn is_stale(st: TaskRetryState, now: u64) -> bool {
    st.attempts@.len() == 0 || (now >= st.attempts@.last().timestamp_ms && now
        - st.attempts@.last().timestamp_ms >= STALE_AFTER_MS)
}

fn stale_at(st: &TaskRetryState, now_ms: u64) -> (r: bool)
    ensures
        r == is_stale(*st, now_ms),
{
    let n = st.attempts.len();
    if n == 0 {
        return true;
    }
    let ts = st.attempts[n - 1].timestamp_ms;
    now_ms >= ts && now_ms - ts >= STALE_AFTER_MS
}

fn severe_in_window(attempts: &Vec<RetryAttempt>) -> (r: usize)
    ensures
        r == recent_severe(attempts@),
{
    let n = attempts.len();
    let start: usize = if n > SEVERE_WINDOW { n - SEVERE_WINDOW } else { 0 };
    let mut count: usize = 0;
    let mut i: usize = start;
    while i < n
        invariant
            n == attempts@.len(),
            start == window_start(n as nat),
            start <= i <= n,
            count == count_severe(attempts@.subrange(start as int, i as int)),
            count <= i - start,
        decreases n - i,
    {
        let sev = attempts[i].error.severity();
        proof {
            let next = attempts@.subrange(start as int, i + 1);
            assert(next.drop_last() =~= attempts@.subrange(start as int, i as int));
        }
        if sev == ErrorSeverity::High || sev == ErrorSeverity::Critical {
            count += 1;
        }
        i += 1;
    }
    count
}

fn update_task_circuit(state: &mut TaskRetryState, now_ms: u64)
    ensures
        final(state).task_id == old(state).task_id,
        final(state).attempts == old(state).attempts,
        final(state).strategy == old(state).strategy,
        recent_severe(old(state).attempts@) >= SEVERE_LIMIT ==> final(state).flags() == (
            true,
            Some(deadline(now_ms, TASK_CIRCUIT_COOLDOWN_MS)),
        ),
        recent_severe(old(state).attempts@) < SEVERE_LIMIT ==> final(state).flags() == old(
            state,
        ).flags(),
{
    let severe = severe_in_window(&state.attempts);
    if severe >= SEVERE_LIMIT {
        state.is_circuit_open = true;
        state.circuit_open_until_ms = Some(deadline_after(now_ms, TASK_CIRCUIT_COOLDOWN_MS));
    }
}

impl RetryManager {
    /// No task state, and a fresh global breaker.
    pub fn new() -> (r: RetryManager)
        ensures
            r.wf(),
            r.states() == Map::<Seq<char>, TaskRetryState>::empty(),
            r.breaker() == CircuitBreaker::new_spec(),
    {
        RetryManager { task_states: Registry::new(), global_circuit_breaker: CircuitBreaker::new() }
    }

    /// Records a failure of task `task_id` with text `error_message` at
    /// `now_ms`, and answers with the delay in milliseconds before the next
    /// attempt, or `None` where the task should not be tried again.
    pub fn should_retry(&mut self, task_id: &str, error_message: &str, now_ms: u64) -> (r: Option<u64>)
        requires
            old(self).wf(),
        ensures
            final(self).wf(),
            failure_recorded(*old(self), *final(self), task_id@, error_message@, now_ms, r),
    {
        let error = DownloadError::from_message(error_message);
        let strategy = error.retry_strategy();
        if self.global_circuit_breaker.is_open(now_ms) {
            return None;
        }
        let ghost m0 = *self;
        let mut state = match self.task_states.remove(task_id) {
            Some(s) => s,
            None => TaskRetryState {
                task_id: String::from_str(task_id),
                attempts: Vec::new(),
                strategy: strategy,
                is_circuit_open: false,
                circuit_open_until_ms: None,
            },
        };
        assert(state.attempts@ == m0.attempts_of(task_id@));
        assert(state.flags() == m0.flags_of(task_id@));
        assert(state.task_id@ == task_id@);
        state.strategy = strategy;
        if state.is_circuit_open {
            if let Some(until) = state.circuit_open_until_ms {
                if now_ms < until {
                    self.task_states.insert(task_id, state);
                    assert(self.states() =~= m0.states().insert(task_id@, self.states()[task_id@]));
                    return None;
                } else {
                    state.is_circuit_open = false;
                    state.circuit_open_until_ms = None;
                }
            }
        }
        let n = state.attempts.len();
        let attempt_number: u32 = if n >= u32::MAX as usize {
            u32::MAX
        } else {
            n as u32 + 1
        };
        let delay = delay_for(&strategy, attempt_number);
        let next_retry_at_ms = match delay {
            Some(d) => Some(deadline_after(now_ms, d)),
            None => None,
        };
        let retry = error.is_retryable();
        state.attempts.push(
            RetryAttempt { attempt_number, error, timestamp_ms: now_ms, next_retry_at_ms },
        );
        update_task_circuit(&mut state, now_ms);
        self.task_states.insert(task_id, state);
        self.global_circuit_breaker.record_failure(now_ms);
        assert(self.states() =~= m0.states().insert(task_id@, self.states()[task_id@]));
        assert(self.states()[task_id@].attempts@.drop_last() =~= m0.attempts_of(task_id@));
        if !retry {
            return None;
        }
        delay
    }

    /// Records that task `task_id` succeeded: its retry state is dropped and
    /// the global breaker counts a success.
    pub fn record_success(&mut self, task_id: &str)
        requires
            old(self).wf(),
        ensures
            final(self).wf(),
            success_recorded(*old(self), *final(self), task_id@),
    {
        let _ = self.task_states.remove(task_id);
        self.global_circuit_breaker.record_success();
    }

    /// The retry state of a task, if it has one.
    pub fn get_retry_history(&self, task_id: &str) -> (r: Option<&TaskRetryState>)
        requires
            self.wf(),
        ensures
            match r {
                Some(s) => self.states().contains_key(task_id@) && *s == self.states()[task_id@],
                None => !self.states().contains_key(task_id@),
            },
    {
        self.task_states.get(task_id)
    }

    /// When the latest attempt of a task is due again, if it is.
    pub fn get_next_retry_time(&self, task_id: &str) -> (r: Option<u64>)
        requires
            self.wf(),
        ensures
            r == (if self.attempts_of(task_id@).len() > 0 {
                self.attempts_of(task_id@).last().next_retry_at_ms
            } else {
                None
            }),
    {
        match self.task_states.get(task_id) {
            Some(state) => {
                let n = state.attempts.len();
                if n > 0 {
                    state.attempts[n - 1].next_retry_at_ms
                } else {
                    None
                }
            },
            None => None,
        }
    }

    /// Drops the retry state of a task.
    pub fn reset_task_state(&mut self, task_id: &str)
        requires
            old(self).wf(),
        ensures
            final(self).wf(),
            final(self).states() == old(self).states().remove(task_id@),
            final(self).breaker() == old(self).breaker(),
    {
        let _ = self.task_states.remove(task_id);
    }

    /// Drops the state of every task whose latest attempt is at least an
    /// hour old at `now_ms`, and of every task with no attempt.
    pub fn cleanup_expired_states(&mut self, now_ms: u64)
        requires
            old(self).wf(),
        ensures
            final(self).wf(),
            final(self).breaker() == old(self).breaker(),
            forall|k: Seq<char>|
                #[trigger] final(self).states().contains_key(k) <==> (old(self).states().contains_key(k)
                    && !is_stale(old(self).states()[k], now_ms)),
            forall|k: Seq<char>|
                #[trigger] final(self).states().contains_key(k) ==> final(self).states()[k] == old(self).states()[k],
    {
        let ghost m0 = *self;
        proof { self.task_states.lemma_entries(); }
        let count = self.task_states.entry_count();
        let mut stale: Vec<String> = Vec::new();
        let mut i: usize = 0;
        while i < count
            invariant
                *self == m0,
                self.wf(),
                count == self.task_states.entry_seq().len(),
                i <= count,
                forall|t: int| 0 <= t < stale@.len() ==> #[trigger] m0.states().contains_key(stale@[t]@)
                    && is_stale(m0.states()[stale@[t]@], now_ms),
                forall|j: int|
                    0 <= j < i && is_stale(self.task_states.entry_seq()[j].1, now_ms) ==> exists|t: int|
                        0 <= t < stale@.len() && #[trigger] stale@[t]@ == crate::registry::key_at(
                            self.task_states.entry_seq(),
                            j,
                        ),
            decreases count - i,
        {
            let (k, st) = self.task_states.entry_at(i);
            let ghost before = stale@;
            if stale_at(st, now_ms) {
                stale.push(k.clone());
            }
            proof {
                let es = self.task_states.entry_seq();
                assert forall|j: int|
                    0 <= j < i + 1 && is_stale(es[j].1, now_ms) implies exists|t: int|
                        0 <= t < stale@.len() && #[trigger] stale@[t]@ == crate::registry::key_at(es, j) by {
                    if j < i {
                        let t = choose|t: int|
                            0 <= t < before.len() && #[trigger] before[t]@ == crate::registry::key_at(es, j);
                        assert(stale@[t] == before[t]);
                    } else {
                        let t = stale@.len() - 1;
                        assert(stale@[t]@ == crate::registry::key_at(es, j));
                    }
                }
            }
            i += 1;
        }
        let mut j: usize = 0;
        while j < stale.len()
            invariant
                self.wf(),
                self.breaker() == m0.breaker(),
                j <= stale@.len(),
                forall|t: int| 0 <= t < stale@.len() ==> #[trigger] m0.states().contains_key(stale@[t]@)
                    && is_stale(m0.states()[stale@[t]@], now_ms),
                forall|k: Seq<char>| #[trigger] self.states().contains_key(k) <==> (m0.states().contains_key(k)
                    && !(exists|t: int| 0 <= t < j && #[trigger] stale@[t]@ == k)),
                forall|k: Seq<char>| #[trigger] self.states().contains_key(k) ==> self.states()[k] == m0.states()[k],
            decreases stale@.len() - j,
        {
            let ghost prev = self.states();
            let _ = self.task_states.remove(stale[j].as_str());
            proof {
                let key = stale@[j as int]@;
                assert(self.states() == prev.remove(key));
                assert forall|k: Seq<char>| #[trigger] self.states().contains_key(k) <==> (m0.states().contains_key(k)
                    && !(exists|t: int| 0 <= t < j + 1 && #[trigger] stale@[t]@ == k)) by {
                    if k == key {
                        assert(stale@[j as int]@ == k);
                    } else {
                        if exists|t: int| 0 <= t < j + 1 && #[trigger] stale@[t]@ == k {
                            let t = choose|t: int| 0 <= t < j + 1 && #[trigger] stale@[t]@ == k;
                            assert(t < j);
                        }
                    }
                }
                assert forall|k: Seq<char>| #[trigger] self.states().contains_key(k) implies self.states()[k]
                    == m0.states()[k] by {
                    assert(prev.contains_key(k));
                }
            }
            j += 1;
        }
        proof {
            assert forall|k: Seq<char>| #[trigger] self.states().contains_key(k) <==> (m0.states().contains_key(k)
                && !is_stale(m0.states()[k], now_ms)) by {
                if m0.states().contains_key(k) && is_stale(m0.states()[k], now_ms) {
                    let jj = choose|jj: int| 0 <= jj < m0.task_states.entry_seq().len()
                        && #[trigger] crate::registry::key_at(m0.task_states.entry_seq(), jj) == k;
                    assert(m0.states()[crate::registry::key_at(m0.task_states.entry_seq(), jj)]
                        == m0.task_states.entry_seq()[jj].1);
                }
            }
        }
    }

    /// The state of the global breaker.
    pub fn global_circuit_state(&self) -> (r: CircuitState)
        ensures
            r == self.breaker().state,
    {
        self.global_circuit_breaker.state()
    }

    /// Whether the global breaker rejects work at `now_ms`.
    pub fn global_circuit_open(&self, now_ms: u64) -> (r: bool)
        ensures
            r == self.breaker().open_at(now_ms),
    {
        self.global_circuit_breaker.is_open(now_ms)
    }
}

/// Once a success is recorded for a task its retry history is gone, and the
/// next failure recorded for it, where the global breaker lets it through,
/// is numbered 1 and is the only attempt on record.
pub proof fn lemma_success_restarts_numbering(
    m0: RetryManager,
    m1: RetryManager,
    m2: RetryManager,
    id: Seq<char>,
    msg: Seq<char>,
    now: u64,
    r: Option<u64>,
)
    requires
        success_recorded(m0, m1, id),
        failure_recorded(m1, m2, id, msg, now, r),
        !m1.breaker().open_at(now),
    ensures
        !m1.states().contains_key(id),
        m1.attempts_of(id).len() == 0,
        m2.states().contains_key(id),
        m2.attempts_of(id).len() == 1,
        m2.attempts_of(id)[0].attempt_number == 1,
{
}

} // verus!
