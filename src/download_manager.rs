//! The task registry and the decisions that drive each task through its
//! lifecycle. The surrounding runtime performs the work (runs the executor,
//! sleeps, publishes notifications) and reports each event here; every
//! execution unit carries a token, and events from a unit that is no longer
//! the task's current one change nothing.

use vstd::prelude::*;
use vstd::string::*;
use crate::error::{
    classified, is_severe, lemma_user_message_nonempty, retryable, severity_of, strategy_of, user_message_of,
    DownloadError, ErrorView,
};
use crate::retry_policy::{backoff_value, delay_spec};
use crate::bignum::power;
use crate::models::{BrowserInfo, DownloadProgress, DownloadStatus, DownloadTask, PROGRESS_COMPLETE};
use crate::registry::{key_at, Registry};
use crate::retry_manager::{
    count_severe, failure_recorded, next_attempt_number, recent_severe, success_recorded, RetryAttempt, RetryManager,
};
use crate::circuit_breaker::{CircuitBreaker, CircuitState};

verus! {

/// How often a caller may retry a task by hand.
pub const MAX_CALLER_RETRIES: u32 = 3;

/// What an execution unit does after a failed attempt.
#[derive(Debug, Clone, Copy, PartialEq, Eq, Structural)]
pub enum FailureOutcome {
    /// Sleep this many milliseconds, then start the next attempt.
    RetryAfter(u64),
    /// The task is marked failed; the unit ends.
    GaveUp,
    /// The unit is no longer the task's current one; it ends.
    Superseded,
}

/// All download tasks, the execution unit currently running each, and the
/// retry coordinator.
pub struct DownloadManager {
    download_tasks: Registry<DownloadTask>,
    active_units: Registry<u64>,
    retry_manager: RetryManager,
    next_unit: u64,
}

/// `t` is the fresh record of a task `id` for `info`.
pub open spec fn is_pending_task(t: DownloadTask, id: Seq<char>, info: BrowserInfo) -> bool {
    &&& t.id@ == id
    &&& t.browser_info == info
    &&& t.status == DownloadStatus::Pending
    &&& t.progress_per_10k == 0
    &&& t.downloaded_bytes == 0
    &&& t.total_bytes == 0
    &&& t.estimated_time_remaining is None
    &&& t.error_message is None
    &&& t.retry_count == 0
}

/// `t1` differs from `t0` in status, error message and retry count at most.
pub open spec fn same_download(t0: DownloadTask, t1: DownloadTask) -> bool {
    &&& t1.id == t0.id
    &&& t1.browser_info == t0.browser_info
    &&& t1.progress_per_10k == t0.progress_per_10k
    &&& t1.downloaded_bytes == t0.downloaded_bytes
    &&& t1.total_bytes == t0.total_bytes
    &&& t1.estimated_time_remaining == t0.estimated_time_remaining
}

/// A retry count plus one, held at its largest value.
pub open spec fn bump_count(c: u32) -> u32 {
    if c == u32::MAX {
        c
    } else {
        (c + 1) as u32
    }
}

/// `m1` and `r` are what `start_download` makes of `m0` for task `id`.
pub open spec fn started(
    m0: DownloadManager,
    m1: DownloadManager,
    id: Seq<char>,
    browser_info: BrowserInfo,
    r: Result<u64, String>,
) -> bool {
    match r {
        Ok(unit) => {
            &&& !m0.units().contains_key(id)
            &&& unit == m0.next_unit()
            &&& m1.next_unit() == unit + 1
            &&& m1.tasks().contains_key(id)
            &&& is_pending_task(m1.tasks()[id], id, browser_info)
            &&& m1.tasks() == m0.tasks().insert(id, m1.tasks()[id])
            &&& m1.units() == m0.units().insert(id, unit)
            &&& m1.retries() == m0.retries()
        },
        Err(e) => {
            &&& m1 == m0
            &&& (m0.units().contains_key(id) && e@ == "Download task already running"@) || (
            !m0.units().contains_key(id) && m0.next_unit() == u64::MAX && e@
                == "No execution unit available"@)
        },
    }
}

/// `m1` and `r` are what `begin_attempt` makes of `m0` for unit `unit` of task `id`.
pub open spec fn began(m0: DownloadManager, m1: DownloadManager, id: Seq<char>, unit: u64, r: bool) -> bool {
    &&& r == m0.unit_current(id, unit)
    &&& !r ==> m1 == m0
    &&& (r ==> {
            &&& m1.tasks() == m0.tasks().insert(
                id,
                DownloadTask { status: DownloadStatus::Downloading, ..m0.tasks()[id] },
            )
            &&& m1.units() == m0.units()
            &&& m1.retries() == m0.retries()
            &&& m1.next_unit() == m0.next_unit()
        })
}

/// `m1` and `r` are what `complete_download` makes of `m0` for unit `unit` of task `id`.
pub open spec fn completed(m0: DownloadManager, m1: DownloadManager, id: Seq<char>, unit: u64, install_path: String, executable_path: String, actual_version: String, r: Option<BrowserInfo>) -> bool {
    &&& r is Some <==> m0.unit_current(id, unit)
    &&& r is None ==> m1 == m0
    &&& (r matches Some(info) ==> {
            let t0 = m0.tasks()[id];
            let t1 = m1.tasks()[id];
            &&& m1.tasks().contains_key(id)
            &&& m1.tasks() == m0.tasks().insert(id, t1)
            &&& t1.status == DownloadStatus::Completed
            &&& t1.progress_per_10k == PROGRESS_COMPLETE
            &&& t1.browser_info == info
            &&& info == (BrowserInfo {
                install_path: install_path,
                executable_path: executable_path,
                version: actual_version,
                file_size: t0.total_bytes,
                ..t0.browser_info
            })
            &&& t1.id == t0.id
            &&& t1.downloaded_bytes == t0.downloaded_bytes
            &&& t1.total_bytes == t0.total_bytes
            &&& t1.estimated_time_remaining == t0.estimated_time_remaining
            &&& t1.error_message == t0.error_message
            &&& t1.retry_count == t0.retry_count
            &&& m1.units() == m0.units().remove(id)
            &&& success_recorded(m0.retries(), m1.retries(), id)
            &&& m1.next_unit() == m0.next_unit()
        })
}

/// `m1` and `r` are what `fail_attempt` makes of `m0` for a failure of unit `unit` of task `id` with text `msg` at `now_ms`.
pub open spec fn attempt_failed(m0: DownloadManager, m1: DownloadManager, id: Seq<char>, unit: u64, msg: Seq<char>, now_ms: u64, r: FailureOutcome) -> bool {
    &&& (r == FailureOutcome::Superseded) <==> !m0.unit_current(id, unit)
    &&& r == FailureOutcome::Superseded ==> m1 == m0
    &&& (r != FailureOutcome::Superseded ==> {
            let t0 = m0.tasks()[id];
            let t1 = m1.tasks()[id];
            let answer = match r {
                FailureOutcome::RetryAfter(d) => Some(d),
                _ => None::<u64>,
            };
            &&& failure_recorded(m0.retries(), m1.retries(), id, msg, now_ms, answer)
            &&& m1.tasks().contains_key(id)
            &&& m1.tasks() == m0.tasks().insert(id, t1)
            &&& same_download(t0, t1)
            &&& t1.error_message matches Some(m) && m@ == user_message_of(classified(msg))
                && m@.len() > 0
            &&& m1.next_unit() == m0.next_unit()
            &&& match r {
                FailureOutcome::RetryAfter(_) => {
                    &&& t1.status == DownloadStatus::Retrying
                    &&& t1.retry_count == bump_count(t0.retry_count)
                    &&& m1.units() == m0.units()
                },
                _ => {
                    &&& t1.status == DownloadStatus::Failed
                    &&& t1.retry_count == t0.retry_count
                    &&& m1.units() == m0.units().remove(id)
                },
            }
        })
}

impl DownloadManager {
    /// Tasks by id.
    pub closed spec fn tasks(&self) -> Map<Seq<char>, DownloadTask> {
        self.download_tasks@
    }

    /// The token of the execution unit running each task.
    pub closed spec fn units(&self) -> Map<Seq<char>, u64> {
        self.active_units@
    }

    /// The retry coordinator.
    pub closed spec fn retries(&self) -> RetryManager {
        self.retry_manager
    }

    /// The token the next execution unit gets; every earlier one is smaller.
    pub closed spec fn next_unit(&self) -> u64 {
        self.next_unit
    }

    /// Records are filed under their own ids, only known tasks have a
    /// running unit, and unit tokens are never reused.
    pub closed spec fn wf(&self) -> bool {
        &&& self.download_tasks.wf()
        &&& self.active_units.wf()
        &&& self.retry_manager.wf()
        &&& forall|k: Seq<char>| #[trigger] self.download_tasks@.contains_key(k) ==> self.download_tasks@[k].id@ == k
        &&& forall|k: Seq<char>| #[trigger] self.active_units@.contains_key(k) ==> self.download_tasks@.contains_key(k)
            && self.active_units@[k] < self.next_unit
    }

    /// `unit` is the execution unit currently running task `id`.
    pub open spec fn unit_current(&self, id: Seq<char>, unit: u64) -> bool {
        self.units().contains_key(id) && self.units()[id] == unit
    }

    /// An empty registry with a fresh retry coordinator.
    pub fn new() -> (r: DownloadManager)
        ensures
            r.wf(),
            r.tasks() == Map::<Seq<char>, DownloadTask>::empty(),
            r.units() == Map::<Seq<char>, u64>::empty(),
            r.retries().states().is_empty(),
            r.retries().breaker() == CircuitBreaker::new_spec(),
    {
        DownloadManager {
            download_tasks: Registry::new(),
            active_units: Registry::new(),
            retry_manager: RetryManager::new(),
            next_unit: 0,
        }
    }

    fn register_unit(&mut self, task_id: &str) -> (r: u64)
        requires
            old(self).wf(),
            old(self).tasks().contains_key(task_id@),
            old(self).next_unit < u64::MAX,
        ensures
            final(self).wf(),
            r == old(self).next_unit,
            final(self).next_unit == r + 1,
            final(self).units() == old(self).units().insert(task_id@, r),
            final(self).tasks() == old(self).tasks(),
            final(self).retries() == old(self).retries(),
    {
        let unit = self.next_unit;
        self.active_units.insert(task_id, unit);
        self.next_unit = unit + 1;
        unit
    }

    /// Registers a `Pending` task `task_id` for `browser_info` and hands out
    /// the token of the execution unit that is to drive it. Refused while a
    /// unit is registered for that id, and once tokens run out.
    pub fn start_download(&mut self, task_id: &str, browser_info: BrowserInfo) -> (r: Result<u64, String>)
        requires
            old(self).wf(),
        ensures
            final(self).wf(),
            started(*old(self), *final(self), task_id@, browser_info, r),
    {
        if self.active_units.contains(task_id) {
            return Err(String::from_str("Download task already running"));
        }
        if self.next_unit == u64::MAX {
            return Err(String::from_str("No execution unit available"));
        }
        let task = DownloadTask {
            id: String::from_str(task_id),
            browser_info,
            status: DownloadStatus::Pending,
            progress_per_10k: 0,
            downloaded_bytes: 0,
            total_bytes: 0,
            estimated_time_remaining: None,
            error_message: None,
            retry_count: 0,
        };
        self.download_tasks.insert(task_id, task);
        let unit = self.register_unit(task_id);
        Ok(unit)
    }

    /// Moves task `task_id` to `Downloading` at the start of an attempt by
    /// execution unit `unit`. Answers whether `unit` is the task's current
    /// unit; where it is not, nothing changes and the unit is to end.
    pub fn begin_attempt(&mut self, task_id: &str, unit: u64) -> (r: bool)
        requires
            old(self).wf(),
        ensures
            final(self).wf(),
            began(*old(self), *final(self), task_id@, unit, r),
    {
        if !self.is_current(task_id, unit) {
            return false;
        }
        let mut t = self.download_tasks.take(task_id);
        t.status = DownloadStatus::Downloading;
        self.download_tasks.insert(task_id, t);
        assert(self.tasks() =~= old(self).tasks().insert(
            task_id@,
            DownloadTask { status: DownloadStatus::Downloading, ..old(self).tasks()[task_id@] },
        ));
        true
    }

    fn is_current(&self, task_id: &str, unit: u64) -> (r: bool)
        requires
            self.wf(),
        ensures
            r == self.unit_current(task_id@, unit),
    {
        match self.active_units.get(task_id) {
            Some(u) => *u == unit,
            None => false,
        }
    }

    /// Applies a progress report from execution unit `unit` to task
    /// `task_id`, and answers with the updated record to publish. Reports
    /// from a unit that is not current change nothing.
    pub fn apply_progress(&mut self, task_id: &str, unit: u64, progress: DownloadProgress) -> (r: Option<DownloadTask>)
        requires
            old(self).wf(),
        ensures
            final(self).wf(),
            r is Some <==> old(self).unit_current(task_id@, unit),
            r is None ==> *final(self) == *old(self),
            r matches Some(t) ==> {
                &&& t == (DownloadTask {
                    progress_per_10k: progress.progress_per_10k,
                    downloaded_bytes: progress.downloaded_bytes,
                    total_bytes: progress.total_bytes,
                    estimated_time_remaining: progress.estimated_time_remaining,
                    ..old(self).tasks()[task_id@]
                })
                &&& final(self).tasks() == old(self).tasks().insert(task_id@, t)
                &&& final(self).units() == old(self).units()
                &&& final(self).retries() == old(self).retries()
                &&& final(self).next_unit() == old(self).next_unit()
            },
    {
        if !self.is_current(task_id, unit) {
            return None;
        }
        let mut t = self.download_tasks.take(task_id);
        t.progress_per_10k = progress.progress_per_10k;
        t.downloaded_bytes = progress.downloaded_bytes;
        t.total_bytes = progress.total_bytes;
        t.estimated_time_remaining = progress.estimated_time_remaining;
        let snapshot = t.duplicate();
        self.download_tasks.insert(task_id, t);
        assert(self.tasks() =~= old(self).tasks().insert(task_id@, snapshot));
        Some(snapshot)
    }

    /// Records that the attempt of execution unit `unit` succeeded: the task
    /// is `Completed` with the resolved install path, executable path and
    /// version, its size is the total byte count, the retry coordinator
    /// counts a success, and the unit ends. Answers with the final browser
    /// record for the completion notification; a unit that is not current
    /// changes nothing and gets `None`.
    pub fn complete_download(
        &mut self,
        task_id: &str,
        unit: u64,
        install_path: String,
        executable_path: String,
        actual_version: String,
    ) -> (r: Option<BrowserInfo>)
        requires
            old(self).wf(),
        ensures
            final(self).wf(),
            completed(*old(self), *final(self), task_id@, unit, install_path, executable_path, actual_version, r),
    {
        if !self.is_current(task_id, unit) {
            return None;
        }
        let mut t = self.download_tasks.take(task_id);
        t.status = DownloadStatus::Completed;
        t.progress_per_10k = PROGRESS_COMPLETE;
        t.browser_info.install_path = install_path;
        t.browser_info.version = actual_version;
        t.browser_info.executable_path = executable_path;
        t.browser_info.file_size = t.total_bytes;
        let info = t.browser_info.duplicate();
        self.download_tasks.insert(task_id, t);
        let _ = self.active_units.remove(task_id);
        self.retry_manager.record_success(task_id);
        assert(self.tasks() =~= old(self).tasks().insert(task_id@, self.tasks()[task_id@]));
        Some(info)
    }

    /// Records that the attempt of execution unit `unit` failed with text
    /// `message` at `now_ms`, and asks the retry coordinator what to do.
    /// With a delay, the task is `Retrying`, its retry count grows by one and
    /// the unit sleeps, then starts again. Without one, the task is `Failed`
    /// and the unit ends. Either way the task carries the user message of the
    /// classified error. A unit that is not current changes nothing.
    pub fn fail_attempt(&mut self, task_id: &str, unit: u64, message: &str, now_ms: u64) -> (r: FailureOutcome)
        requires
            old(self).wf(),
        ensures
            final(self).wf(),
            attempt_failed(*old(self), *final(self), task_id@, unit, message@, now_ms, r),
    {
        if !self.is_current(task_id, unit) {
            return FailureOutcome::Superseded;
        }
        proof { lemma_user_message_nonempty(classified(message@)); }
        let decision = self.retry_manager.should_retry(task_id, message, now_ms);
        let error = DownloadError::from_message(message);
        let user_message = error.user_message();
        let mut t = self.download_tasks.take(task_id);
        t.error_message = Some(user_message);
        let outcome = match decision {
            Some(delay) => {
                t.status = DownloadStatus::Retrying;
                t.retry_count = if t.retry_count == u32::MAX {
                    t.retry_count
                } else {
                    t.retry_count + 1
                };
                FailureOutcome::RetryAfter(delay)
            },
            None => {
                t.status = DownloadStatus::Failed;
                FailureOutcome::GaveUp
            },
        };
        self.download_tasks.insert(task_id, t);
        if outcome == FailureOutcome::GaveUp {
            let _ = self.active_units.remove(task_id);
        }
        assert(self.tasks() =~= old(self).tasks().insert(task_id@, self.tasks()[task_id@]));
        outcome
    }

    /// A caller's re-attempt of task `task_id`: its retry count grows by one,
    /// it is `Retrying` with no error message, and a new execution unit is
    /// registered for it. Refused for an unknown task, once the caller has
    /// retried `MAX_CALLER_RETRIES` times, while a unit is running it, and
    /// once tokens run out.
    pub fn retry_download(&mut self, task_id: &str) -> (r: Result<u64, String>)
        requires
            old(self).wf(),
        ensures
            final(self).wf(),
            match r {
                Ok(unit) => {
                    let t0 = old(self).tasks()[task_id@];
                    let t1 = final(self).tasks()[task_id@];
                    &&& old(self).tasks().contains_key(task_id@)
                    &&& t0.retry_count < MAX_CALLER_RETRIES
                    &&& !old(self).units().contains_key(task_id@)
                    &&& unit == old(self).next_unit()
                    &&& final(self).next_unit() == unit + 1
                    &&& final(self).tasks() == old(self).tasks().insert(task_id@, t1)
                    &&& same_download(t0, t1)
                    &&& t1.status == DownloadStatus::Retrying
                    &&& t1.retry_count == t0.retry_count + 1
                    &&& t1.error_message is None
                    &&& final(self).units() == old(self).units().insert(task_id@, unit)
                    &&& final(self).retries() == old(self).retries()
                },
                Err(e) => {
                    &&& *final(self) == *old(self)
                    &&& if !old(self).tasks().contains_key(task_id@) {
                        e@ == "Download task not found"@
                    } else if old(self).tasks()[task_id@].retry_count >= MAX_CALLER_RETRIES {
                        e@ == "Maximum retry attempts reached"@
                    } else if old(self).units().contains_key(task_id@) {
                        e@ == "Download task already running"@
                    } else {
                        old(self).next_unit() == u64::MAX && e@ == "No execution unit available"@
                    }
                },
            },
    {
        let count = match self.download_tasks.get(task_id) {
            Some(t) => t.retry_count,
            None => {
                return Err(String::from_str("Download task not found"));
            },
        };
        if count >= MAX_CALLER_RETRIES {
            return Err(String::from_str("Maximum retry attempts reached"));
        }
        if self.active_units.contains(task_id) {
            return Err(String::from_str("Download task already running"));
        }
        if self.next_unit == u64::MAX {
            return Err(String::from_str("No execution unit available"));
        }
        let mut t = self.download_tasks.take(task_id);
        t.retry_count = count + 1;
        t.status = DownloadStatus::Retrying;
        t.error_message = None;
        self.download_tasks.insert(task_id, t);
        assert(self.tasks() =~= old(self).tasks().insert(task_id@, self.tasks()[task_id@]));
        let unit = self.register_unit(task_id);
        Ok(unit)
    }

    /// Cancels task `task_id`: its execution unit, if any, is no longer
    /// current, and its record is deleted.
    pub fn remove_task(&mut self, task_id: &str) -> (r: Result<(), String>)
        requires
            old(self).wf(),
        ensures
            final(self).wf(),
            r is Ok,
            final(self).tasks() == old(self).tasks().remove(task_id@),
            final(self).units() == old(self).units().remove(task_id@),
            final(self).retries() == old(self).retries(),
            final(self).next_unit() == old(self).next_unit(),
    {
        let _ = self.active_units.remove(task_id);
        let _ = self.download_tasks.remove(task_id);
        Ok(())
    }

    /// A copy of the record of task `task_id`, if there is one.
    pub fn get_progress(&self, task_id: &str) -> (r: Option<DownloadTask>)
        requires
            self.wf(),
        ensures
            match r {
                Some(t) => self.tasks().contains_key(task_id@) && t == self.tasks()[task_id@],
                None => !self.tasks().contains_key(task_id@),
            },
    {
        match self.download_tasks.get(task_id) {
            Some(t) => Some(t.duplicate()),
            None => None,
        }
    }

    /// Copies of all task records, each once.
    pub fn list_download_tasks(&self) -> (r: Vec<DownloadTask>)
        requires
            self.wf(),
        ensures
            r@.len() == self.tasks().len(),
            forall|i: int|
                0 <= i < r@.len() ==> self.tasks().contains_key(#[trigger] r@[i].id@) && r@[i]
                    == self.tasks()[r@[i].id@],
            forall|i: int, j: int| 0 <= i < j < r@.len() ==> r@[i].id@ != r@[j].id@,
            forall|k: Seq<char>|
                #[trigger] self.tasks().contains_key(k) ==> exists|i: int| 0 <= i < r@.len() && r@[i].id@ == k,
    {
        proof { self.download_tasks.lemma_entries(); }
        let n = self.download_tasks.entry_count();
        let mut out: Vec<DownloadTask> = Vec::new();
        let mut i: usize = 0;
        while i < n
            invariant
                self.wf(),
                n == self.download_tasks.entry_seq().len(),
                i <= n,
                out@.len() == i,
                forall|j: int|
                    0 <= j < i ==> out@[j] == self.download_tasks.entry_seq()[j].1 && out@[j].id@
                        == key_at(self.download_tasks.entry_seq(), j),
            decreases n - i,
        {
            let (_, t) = self.download_tasks.entry_at(i);
            out.push(t.duplicate());
            i += 1;
        }
        proof {
            let es = self.download_tasks.entry_seq();
            assert forall|k: Seq<char>| #[trigger] self.tasks().contains_key(k) implies exists|i: int|
                0 <= i < out@.len() && out@[i].id@ == k by {
                let j = choose|j: int| 0 <= j < es.len() && #[trigger] key_at(es, j) == k;
                assert(out@[j].id@ == k);
            }
            assert forall|i: int, j: int| 0 <= i < j < out@.len() implies out@[i].id@ != out@[j].id@ by {
                assert(key_at(es, i) != key_at(es, j));
            }
            assert forall|i: int| 0 <= i < out@.len() implies self.tasks().contains_key(#[trigger] out@[i].id@)
                && out@[i] == self.tasks()[out@[i].id@] by {
                assert(crate::registry::has_key(es, key_at(es, i)));
            }
        }
        out
    }

    /// The retry coordinator, for diagnostics.
    pub fn retry_manager(&self) -> (r: &RetryManager)
        ensures
            *r == self.retries(),
    {
        &self.retry_manager
    }
}

/// Once a task is removed its record is gone and the execution unit that
/// was running it is no longer current; every unit started later gets a
/// larger token, so the removed unit's events change nothing from then on.
pub proof fn lemma_removed_unit_is_inert(m0: DownloadManager, m1: DownloadManager, id: Seq<char>, unit: u64)
    requires
        m0.wf(),
        m1.tasks() == m0.tasks().remove(id),
        m1.units() == m0.units().remove(id),
        m1.next_unit() == m0.next_unit(),
        m0.unit_current(id, unit),
    ensures
        !m1.tasks().contains_key(id),
        !m1.unit_current(id, unit),
        unit < m1.next_unit(),
{
}


/// A task whose first attempt fails with an error that is not worth
/// retrying goes from `Pending` to `Downloading` to `Failed` with no retry:
/// its retry count stays 0, it carries a non-empty message for users, and
/// its execution unit ends.
pub proof fn lemma_non_retryable_failure_ends_task(
    m0: DownloadManager,
    m1: DownloadManager,
    m2: DownloadManager,
    m3: DownloadManager,
    id: Seq<char>,
    info: BrowserInfo,
    unit: u64,
    began_ok: bool,
    msg: Seq<char>,
    now_ms: u64,
    outcome: FailureOutcome,
)
    requires
        started(m0, m1, id, info, Ok(unit)),
        began(m1, m2, id, unit, began_ok),
        attempt_failed(m2, m3, id, unit, msg, now_ms, outcome),
        !retryable(classified(msg)),
    ensures
        m1.tasks()[id].status == DownloadStatus::Pending,
        began_ok,
        m2.tasks()[id].status == DownloadStatus::Downloading,
        outcome == FailureOutcome::GaveUp,
        m3.tasks().contains_key(id),
        m3.tasks()[id].status == DownloadStatus::Failed,
        m3.tasks()[id].retry_count == 0,
        m3.tasks()[id].error_message matches Some(m) && m@.len() > 0,
        !m3.units().contains_key(id),
{
    assert(m1.unit_current(id, unit));
    assert(m2.tasks()[id] == DownloadTask { status: DownloadStatus::Downloading, ..m1.tasks()[id] });
    assert(m2.unit_current(id, unit));
    let answer = match outcome {
        FailureOutcome::RetryAfter(d) => Some(d),
        _ => None::<u64>,
    };
    assert(failure_recorded(m2.retries(), m3.retries(), id, msg, now_ms, answer));
    assert(answer is None);
}


/// A fresh task whose first two attempts time out and whose third succeeds
/// goes `Pending`, `Downloading`, `Retrying`, `Downloading`, `Retrying`,
/// `Downloading`, `Completed`. It waits 1 s, then 2 s, ends with retry
/// count 2, and has no retry history left. This holds while the global
/// breaker stays closed, that is, with at least three failures to go
/// before its threshold.
pub proof fn lemma_two_timeouts_then_success(
    m: Seq<DownloadManager>,
    id: Seq<char>,
    info: BrowserInfo,
    unit: u64,
    began_ok: Seq<bool>,
    msg: Seq<char>,
    t1: u64,
    t2: u64,
    r1: FailureOutcome,
    r2: FailureOutcome,
    install_path: String,
    executable_path: String,
    actual_version: String,
    done: Option<BrowserInfo>,
)
    requires
        m.len() == 8,
        began_ok.len() == 3,
        started(m[0], m[1], id, info, Ok(unit)),
        began(m[1], m[2], id, unit, began_ok[0]),
        attempt_failed(m[2], m[3], id, unit, msg, t1, r1),
        began(m[3], m[4], id, unit, began_ok[1]),
        attempt_failed(m[4], m[5], id, unit, msg, t2, r2),
        began(m[5], m[6], id, unit, began_ok[2]),
        completed(m[6], m[7], id, unit, install_path, executable_path, actual_version, done),
        classified(msg) == ErrorView::NetworkTimeout,
        !m[0].retries().states().contains_key(id),
        m[0].retries().breaker().state == CircuitState::Closed,
        m[0].retries().breaker().failure_count + 2 < m[0].retries().breaker().failure_threshold,
    ensures
        m[1].tasks()[id].status == DownloadStatus::Pending,
        m[2].tasks()[id].status == DownloadStatus::Downloading,
        m[3].tasks()[id].status == DownloadStatus::Retrying,
        m[4].tasks()[id].status == DownloadStatus::Downloading,
        m[5].tasks()[id].status == DownloadStatus::Retrying,
        m[6].tasks()[id].status == DownloadStatus::Downloading,
        m[7].tasks()[id].status == DownloadStatus::Completed,
        began_ok[0] && began_ok[1] && began_ok[2],
        r1 == FailureOutcome::RetryAfter(1000),
        r2 == FailureOutcome::RetryAfter(2000),
        done is Some,
        m[7].tasks()[id].retry_count == 2,
        !m[7].retries().states().contains_key(id),
{
    let e = ErrorView::NetworkTimeout;
    let strategy = strategy_of(e);
    assert(power(200, 0) == 1);
    assert(power(100, 0) == 1);
    assert(power(200, 1) == 200 * power(200, 0));
    assert(power(100, 1) == 100 * power(100, 0));
    assert(backoff_value(1000, 200, 0) == 1000);
    assert(backoff_value(1000, 200, 1) == 2000);
    assert(delay_spec(strategy, 1) == Some(1000nat));
    assert(delay_spec(strategy, 2) == Some(2000nat));
    assert(!is_severe(severity_of(e)));

    // First failure.
    assert(m[1].unit_current(id, unit));
    assert(m[2].unit_current(id, unit));
    assert(m[2].retries() == m[0].retries());
    let rm2 = m[2].retries();
    let rm3 = m[3].retries();
    assert(!rm2.breaker().open_at(t1));
    assert(rm2.flags_of(id) == (false, None::<u64>));
    assert(rm2.attempts_of(id).len() == 0);
    let a1 = match r1 {
        FailureOutcome::RetryAfter(d) => Some(d),
        _ => None::<u64>,
    };
    assert(failure_recorded(rm2, rm3, id, msg, t1, a1));
    assert(next_attempt_number(0) == 1);
    assert(a1 == Some(1000u64));
    let s3 = rm3.states()[id];
    assert(s3.attempts@.len() == 1);
    assert(s3.attempts@.last().error@ == e);
    assert(s3.attempts@.subrange(0, 1) =~= s3.attempts@);
    assert(s3.attempts@.drop_last() =~= Seq::<RetryAttempt>::empty());
    assert(count_severe(s3.attempts@.drop_last()) == 0);
    assert(count_severe(s3.attempts@) == 0);
    assert(recent_severe(s3.attempts@) == 0);
    assert(s3.flags() == (false, None::<u64>));
    assert(rm3.breaker().state == CircuitState::Closed);
    assert(rm3.breaker().failure_count == rm2.breaker().failure_count + 1);

    // Second failure.
    assert(m[3].unit_current(id, unit));
    assert(m[4].unit_current(id, unit));
    let rm4 = m[4].retries();
    let rm5 = m[5].retries();
    assert(rm4 == rm3);
    assert(!rm4.breaker().open_at(t2));
    assert(rm4.flags_of(id) == (false, None::<u64>));
    assert(rm4.attempts_of(id).len() == 1);
    let a2 = match r2 {
        FailureOutcome::RetryAfter(d) => Some(d),
        _ => None::<u64>,
    };
    assert(failure_recorded(rm4, rm5, id, msg, t2, a2));
    assert(next_attempt_number(1) == 2);
    assert(a2 == Some(2000u64));

    // Success.
    assert(m[5].unit_current(id, unit));
    assert(m[6].unit_current(id, unit));
    assert(m[3].tasks()[id].retry_count == 1);
    assert(m[5].tasks()[id].retry_count == 2);
}

} // verus!
