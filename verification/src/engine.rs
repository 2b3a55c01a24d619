//! The engine facade: submit, status, result, cancel and stats, plus the two
//! worker steps (pick and finish).
//!
//! The engine is a plain state machine over a job store, a FIFO queue and a
//! set of counters. Time enters through a `now_ms` argument (milliseconds
//! since the UNIX epoch); the engine keeps its own monotone clock, the
//! maximum of everything it has observed, so stored timestamps never run
//! backwards even when the caller's clock does. Locks, the background task
//! that drives the worker steps, and the actual process runs all live with
//! the caller.

use vstd::prelude::*;
use vstd::pervasive::VecAdditionalExecFns;
use vstd::string::StringExecFns;
use crate::executor::CodeExecutor;
use crate::queue::ExecutionQueue;
use crate::state::{is_active, is_outcome, is_terminal, step_allowed, ExecutionState};
use crate::types::{
    EngineError, EngineStats, ExecutionJob, ExecutionRequest, ExecutionResponse, ExecutionResult,
    ExecutionStatus,
};

verus! {

/// The first job with the given id, if any.
pub open spec fn find_job(jobs: Seq<ExecutionJob>, id: Seq<char>) -> Option<int>
    decreases jobs.len(),
{
    if jobs.len() == 0 {
        None
    } else if jobs[0].id@ == id {
        Some(0)
    } else {
        match find_job(jobs.drop_first(), id) {
            Some(i) => Some(i + 1),
            None => None,
        }
    }
}

/// The engine clock after observing `now_ms`: the clock never moves
/// backwards, so a mutator stamps `max(now_ms, clock)` — the time of the
/// call whenever the caller's clock is at or ahead of everything observed
/// before.
pub open spec fn advanced_clock(old_clock: u64, now_ms: u64) -> u64 {
    if now_ms > old_clock {
        now_ms
    } else {
        old_clock
    }
}

/// The diagnostic text an operational failure leaves in the job's stored
/// result: the error's own message, or the generic internal one when the
/// executor handed back a result in a non-terminal state.
pub open spec fn failure_message(outcome: Result<ExecutionResult, EngineError>) -> Seq<char> {
    match outcome {
        Ok(_) => EngineError::Internal.message_spec(),
        Err(e) => e.message_spec(),
    }
}

/// The result stored for a job that ends in `InternalError`: no captured
/// output, no measurements, and the short diagnostic in stderr.
pub open spec fn is_failure_diagnostic(r: ExecutionResult, j: ExecutionJob, msg: Seq<char>, t: u64) -> bool {
    &&& r.id@ == j.id@
    &&& r.status == ExecutionState::InternalError
    &&& r.stdout is None
    &&& r.stderr is Some && r.stderr->0@ == msg
    &&& r.compile_output is None
    &&& r.exit_code is None
    &&& r.signal is None
    &&& r.time is None
    &&& r.memory is None
    &&& r.created_at == j.created_at
    &&& r.finished_at == Some(t)
}

/// Well-formedness of one stored job against the engine clock: timestamps
/// are ordered and never ahead of the clock, `finished_at` is set exactly on
/// terminal jobs, `started_at` is set whenever the worker touched the job,
/// and a stored result carries the job's own terminal status.
pub open spec fn job_wf(j: ExecutionJob, clock: u64) -> bool {
    &&& j.created_at <= clock
    &&& (j.started_at is Some ==> j.created_at <= j.started_at->0 <= clock)
    &&& (j.finished_at is Some ==> j.created_at <= j.finished_at->0 <= clock)
    &&& (j.started_at is Some && j.finished_at is Some ==> j.started_at->0 <= j.finished_at->0)
    &&& (is_terminal(j.status) <==> j.finished_at is Some)
    &&& (is_active(j.status) || is_outcome(j.status) ==> j.started_at is Some)
    &&& (j.status == ExecutionState::Queued ==> j.started_at is None && j.result is None)
    &&& (j.result is Some ==> is_outcome(j.status) && j.result->0.status == j.status)
}

/// A job's timestamps stay well formed when the clock moves forward.
proof fn lemma_job_wf_clock_mono(j: ExecutionJob, c1: u64, c2: u64)
    requires
        job_wf(j, c1),
        c1 <= c2,
    ensures
        job_wf(j, c2),
{
}

/// The number of jobs currently in an active (Processing or Running) state.
pub open spec fn count_active(jobs: Seq<ExecutionJob>) -> int
    decreases jobs.len(),
{
    if jobs.len() == 0 {
        0
    } else {
        count_active(jobs.drop_last()) + if is_active(jobs.last().status) {
            1int
        } else {
            0int
        }
    }
}

/// The number of jobs currently queued.
pub open spec fn count_queued(jobs: Seq<ExecutionJob>) -> int
    decreases jobs.len(),
{
    if jobs.len() == 0 {
        0
    } else {
        count_queued(jobs.drop_last()) + if jobs.last().status == ExecutionState::Queued {
            1int
        } else {
            0int
        }
    }
}

proof fn lemma_count_bounds(jobs: Seq<ExecutionJob>)
    ensures
        0 <= count_active(jobs) <= jobs.len(),
        0 <= count_queued(jobs) <= jobs.len(),
    decreases jobs.len(),
{
    if jobs.len() > 0 {
        lemma_count_bounds(jobs.drop_last());
    }
}

/// The main execution engine: the job store, the pending queue, the
/// counters, and the language executor.
pub struct ExecutionEngine {
    executor: CodeExecutor,
    queue: ExecutionQueue,
    jobs: Vec<ExecutionJob>,
    stats: EngineStats,
    start_time: u64,
    clock: u64,
}

impl ExecutionEngine {
    /// The stored jobs, in submission order.
    pub closed spec fn jobs_view(&self) -> Seq<ExecutionJob> {
        self.jobs@
    }

    /// The pending queue, oldest first.
    pub closed spec fn queue_view(&self) -> Seq<ExecutionJob> {
        self.queue@
    }

    /// The counters as submit and the worker maintain them.
    pub closed spec fn stats_spec(&self) -> EngineStats {
        self.stats
    }

    /// When the engine was created.
    pub closed spec fn start_time_spec(&self) -> u64 {
        self.start_time
    }

    /// The engine's monotone clock: the latest time it has observed.
    pub closed spec fn clock_spec(&self) -> u64 {
        self.clock
    }

    /// The language executor the engine validates and plans with.
    pub closed spec fn executor_spec(&self) -> CodeExecutor {
        self.executor
    }

    /// The engine invariant: every stored job is well formed against the
    /// clock, ids are unique, and the clock covers the start time.
    pub open spec fn wf(&self) -> bool {
        &&& forall|i: int|
            0 <= i < self.jobs_view().len() ==> job_wf(
                #[trigger] self.jobs_view()[i],
                self.clock_spec(),
            )
        &&& forall|i: int, j: int|
            0 <= i < j < self.jobs_view().len() ==> (#[trigger] self.jobs_view()[i].id@) != (
            #[trigger] self.jobs_view()[j].id@)
        &&& self.start_time_spec() <= self.clock_spec()
        &&& self.executor_spec().wf()
    }

    /// A fresh engine: empty store and queue, zero counters, clock and start
    /// time at `now_ms`.
    pub fn new(now_ms: u64) -> (res: Self)
        ensures
            res.wf(),
            res.jobs_view() == Seq::<ExecutionJob>::empty(),
            res.queue_view() == Seq::<ExecutionJob>::empty(),
            res.stats_spec() == EngineStats::zero(),
            res.start_time_spec() == now_ms,
            res.clock_spec() == now_ms,
    {
        ExecutionEngine {
            executor: CodeExecutor::new(),
            queue: ExecutionQueue::new(),
            jobs: Vec::new(),
            stats: EngineStats::default(),
            start_time: now_ms,
            clock: now_ms,
        }
    }

    /// Find a job's index by id.
    fn find_index(&self, id: &String) -> (res: Option<usize>)
        ensures
            match find_job(self.jobs_view(), id@) {
                Some(i) => res is Some && res->0 == i && 0 <= i < self.jobs_view().len()
                    && self.jobs_view()[i].id@ == id@,
                None => res is None,
            },
    {
        proof {
            lemma_find_job_props(self.jobs_view(), id@);
        }
        let n = self.jobs.len();
        let mut k: usize = 0;
        while k < n
            invariant
                n == self.jobs_view().len(),
                0 <= k <= n,
                forall|j: int| 0 <= j < k ==> (#[trigger] self.jobs_view()[j].id@) != id@,
            decreases n - k,
        {
            if self.jobs[k].id == *id {
                proof {
                    lemma_find_job_prefix_miss(self.jobs_view(), id@, k as int);
                }
                return Some(k);
            }
            k = k + 1;
        }
        None
    }

    /// Submit a request: validate it, create the job in `Queued`, store and
    /// enqueue it, and bump the counters.
    ///
    /// Rejects a duplicate id, an empty source, an unknown language and a
    /// bad auxiliary archive, in that order, leaving the engine unchanged.
    pub fn submit_execution(&mut self, request: ExecutionRequest, now_ms: u64) -> (res: Result<
        ExecutionResponse,
        EngineError,
    >)
        requires
            old(self).wf(),
        ensures
            final(self).wf(),
            final(self).start_time_spec() == old(self).start_time_spec(),
            final(self).executor_spec() == old(self).executor_spec(),
            match res {
                Ok(resp) => {
                    let t = final(self).clock_spec();
                    let job = final(self).jobs_view().last();
                    &&& t == advanced_clock(old(self).clock_spec(), now_ms)
                    &&& resp.id@ == request.id@
                    &&& resp.status@ == "queued"@
                    &&& find_job(old(self).jobs_view(), request.id@) is None
                    &&& request.source_code@.len() > 0
                    &&& old(self).executor_spec().lookup_of(request) is Some
                    &&& final(self).jobs_view() == old(self).jobs_view().push(job)
                    &&& job.id@ == request.id@
                    &&& job.request == request
                    &&& job.status == ExecutionState::Queued
                    &&& job.created_at == t
                    &&& job.started_at is None
                    &&& job.finished_at is None
                    &&& job.result is None
                    &&& final(self).queue_view() == old(self).queue_view().push(job)
                    &&& final(self).stats_spec() == EngineStats {
                        total_executions: old(self).stats_spec().total_executions.saturating_add(1) as u64,
                        queued_executions: old(self).stats_spec().queued_executions.saturating_add(1) as u64,
                        ..old(self).stats_spec()
                    }
                },
                Err(e) => {
                    &&& *final(self) == *old(self)
                    &&& e.is_user_error()
                    &&& (e == EngineError::DuplicateId <==> find_job(
                        old(self).jobs_view(),
                        request.id@,
                    ) is Some)
                    &&& (e == EngineError::EmptySource <==> find_job(
                        old(self).jobs_view(),
                        request.id@,
                    ) is None && request.source_code@.len() == 0)
                    &&& (e == EngineError::UnsupportedLanguage <==> find_job(
                        old(self).jobs_view(),
                        request.id@,
                    ) is None && request.source_code@.len() > 0 && old(self).executor_spec().lookup_of(request) is None)
                    &&& (e == EngineError::BadArchive <==> find_job(
                        old(self).jobs_view(),
                        request.id@,
                    ) is None && request.source_code@.len() > 0 && old(
                        self,
                    ).executor_spec().lookup_of(request) is Some && (match request
                        .additional_files {
                        Some(enc) => !crate::archive::archive_ok(enc@),
                        None => false,
                    }))
                },
            },
            find_job(old(self).jobs_view(), request.id@) is None && request.source_code@.len() > 0
                && old(self).executor_spec().lookup_of(request) is Some && (match request
                .additional_files {
                Some(enc) => crate::archive::archive_ok(enc@),
                None => true,
            }) ==> res is Ok,
    {
        if self.find_index(&request.id).is_some() {
            return Err(EngineError::DuplicateId);
        }
        match self.executor.prepare(&request) {
            Ok(_plan) => (),
            Err(e) => {
                return Err(e);
            },
        }
        let t = if now_ms > self.clock {
            now_ms
        } else {
            self.clock
        };
        let ghost old_jobs = self.jobs@;
        let job = ExecutionJob {
            id: request.id.clone(),
            request,
            status: ExecutionState::Queued,
            created_at: t,
            started_at: None,
            finished_at: None,
            result: None,
        };
        let response = ExecutionResponse {
            id: job.id.clone(),
            status: String::from_str("queued"),
            message: String::from_str("Execution queued successfully"),
        };
        self.queue.enqueue(job.clone());
        self.jobs.push(job);
        self.stats.total_executions = self.stats.total_executions.saturating_add(1);
        self.stats.queued_executions = self.stats.queued_executions.saturating_add(1);
        self.clock = t;
        proof {
            assert forall|i: int|
                0 <= i < self.jobs_view().len() implies job_wf(
                #[trigger] self.jobs_view()[i],
                self.clock_spec(),
            ) by {
                if i < old_jobs.len() {
                    assert(self.jobs_view()[i] == old_jobs[i]);
                    lemma_job_wf_clock_mono(old_jobs[i], old(self).clock_spec(), t);
                }
            }
            lemma_find_job_props(old_jobs, self.jobs_view().last().id@);
        }
        Ok(response)
    }

    /// A snapshot of a job's lifecycle, or `None` for an unknown id.
    pub fn get_status(&self, id: &String) -> (res: Option<ExecutionStatus>)
        ensures
            match find_job(self.jobs_view(), id@) {
                Some(i) => {
                    let j = self.jobs_view()[i];
                    &&& res is Some
                    &&& res->0.id@ == j.id@
                    &&& res->0.status == j.status
                    &&& res->0.created_at == j.created_at
                    &&& res->0.started_at == j.started_at
                    &&& res->0.finished_at == j.finished_at
                    &&& res->0.progress is None
                },
                None => res is None,
            },
    {
        let found = self.find_index(id);
        let idx = match found {
            Some(i) => i,
            None => {
                return None;
            },
        };
        let j = &self.jobs[idx];
        Some(
            ExecutionStatus {
                id: j.id.clone(),
                status: j.status,
                created_at: j.created_at,
                started_at: j.started_at,
                finished_at: j.finished_at,
                progress: None,
            },
        )
    }

    /// A job's result, or `None` for an unknown id. Before the job finishes
    /// the result is a placeholder carrying the current status. When
    /// `include_output` is false the three output fields are redacted and
    /// everything else is kept.
    pub fn get_result(&self, id: &String, include_output: bool) -> (res: Option<ExecutionResult>)
        ensures
            match find_job(self.jobs_view(), id@) {
                Some(i) => {
                    let j = self.jobs_view()[i];
                    &&& res is Some
                    &&& (match j.result {
                        Some(r) => {
                            &&& (include_output ==> res->0 == r)
                            &&& (!include_output ==> res->0 == ExecutionResult {
                                stdout: None,
                                stderr: None,
                                compile_output: None,
                                ..r
                            })
                        },
                        None => {
                            &&& res->0.id@ == j.id@
                            &&& res->0.status == j.status
                            &&& res->0.stdout is None && res->0.stderr is None
                            &&& res->0.compile_output is None
                            &&& res->0.exit_code is None && res->0.signal is None
                            &&& res->0.time is None && res->0.memory is None
                            &&& res->0.created_at == j.created_at
                            &&& res->0.finished_at == j.finished_at
                        },
                    })
                },
                None => res is None,
            },
    {
        let idx = match self.find_index(id) {
            Some(i) => i,
            None => {
                return None;
            },
        };
        let j = &self.jobs[idx];
        match &j.result {
            Some(r) => {
                let mut result = r.clone();
                if !include_output {
                    result.stdout = None;
                    result.stderr = None;
                    result.compile_output = None;
                }
                Some(result)
            },
            None => Some(
                ExecutionResult {
                    id: j.id.clone(),
                    status: j.status,
                    stdout: None,
                    stderr: None,
                    compile_output: None,
                    exit_code: None,
                    signal: None,
                    time: None,
                    memory: None,
                    created_at: j.created_at,
                    finished_at: j.finished_at,
                },
            ),
        }
    }

    /// Cancel a job. Succeeds exactly when the job exists in a pre-terminal
    /// state: the status flips to `Cancelled` and `finished_at` is set now.
    /// On a terminal job (or an unknown id) this is a no-op and returns
    /// false: the stored record does not change.
    pub fn cancel_execution(&mut self, id: &String, now_ms: u64) -> (res: bool)
        requires
            old(self).wf(),
        ensures
            final(self).wf(),
            final(self).queue_view() == old(self).queue_view(),
            final(self).stats_spec() == old(self).stats_spec(),
            final(self).start_time_spec() == old(self).start_time_spec(),
            final(self).executor_spec() == old(self).executor_spec(),
            match find_job(old(self).jobs_view(), id@) {
                None => !res && *final(self) == *old(self),
                Some(i) => {
                    let j = old(self).jobs_view()[i];
                    if is_terminal(j.status) {
                        !res && *final(self) == *old(self)
                    } else {
                        &&& res
                        &&& step_allowed(j.status, ExecutionState::Cancelled)
                        &&& final(self).clock_spec() == advanced_clock(
                            old(self).clock_spec(),
                            now_ms,
                        )
                        &&& final(self).jobs_view() == old(self).jobs_view().update(
                            i,
                            ExecutionJob {
                                status: ExecutionState::Cancelled,
                                finished_at: Some(final(self).clock_spec()),
                                ..j
                            },
                        )
                    }
                },
            },
    {
        let idx = match self.find_index(id) {
            Some(i) => i,
            None => {
                return false;
            },
        };
        let j = &self.jobs[idx];
        match j.status {
            ExecutionState::Queued | ExecutionState::Processing | ExecutionState::Running => (),
            _ => {
                return false;
            },
        }
        let t = if now_ms > self.clock {
            now_ms
        } else {
            self.clock
        };
        let ghost old_jobs = self.jobs@;
        let updated = ExecutionJob {
            id: j.id.clone(),
            request: j.request.clone(),
            status: ExecutionState::Cancelled,
            created_at: j.created_at,
            started_at: j.started_at,
            finished_at: Some(t),
            result: None,
        };
        proof {
            assert(j.result is None);
        }
        self.jobs.set(idx, updated);
        self.clock = t;
        proof {
            assert forall|i: int|
                0 <= i < self.jobs_view().len() implies job_wf(
                #[trigger] self.jobs_view()[i],
                self.clock_spec(),
            ) by {
                if i != idx {
                    assert(self.jobs_view()[i] == old_jobs[i]);
                    lemma_job_wf_clock_mono(old_jobs[i], old(self).clock_spec(), t);
                }
            }
        }
        true
    }

    /// The engine statistics: the maintained counters, the live counts of
    /// active and queued jobs, the caller-supplied host metrics, and the
    /// uptime in whole seconds.
    pub fn get_stats(&self, now_ms: u64, system_load: u64, memory_usage: u64) -> (res: EngineStats)
        ensures
            res.total_executions == self.stats_spec().total_executions,
            res.completed_executions == self.stats_spec().completed_executions,
            res.failed_executions == self.stats_spec().failed_executions,
            res.average_execution_time == self.stats_spec().average_execution_time,
            res.active_executions == count_active(self.jobs_view()),
            res.queued_executions == count_queued(self.jobs_view()),
            res.system_load == system_load,
            res.memory_usage == memory_usage,
            res.uptime_seconds == if now_ms >= self.start_time_spec() {
                ((now_ms - self.start_time_spec()) / 1000) as int
            } else {
                0int
            },
    {
        proof {
            lemma_count_bounds(self.jobs_view());
        }
        let n = self.jobs.len();
        let mut active: usize = 0;
        let mut queued: usize = 0;
        let mut i: usize = 0;
        while i < n
            invariant
                n == self.jobs_view().len(),
                0 <= i <= n,
                active == count_active(self.jobs_view().take(i as int)),
                queued == count_queued(self.jobs_view().take(i as int)),
            decreases n - i,
        {
            proof {
                assert(self.jobs_view().take(i + 1).drop_last() =~= self.jobs_view().take(i as int));
                assert(self.jobs_view().take(i + 1).last() == self.jobs_view()[i as int]);
                lemma_count_bounds(self.jobs_view().take(i as int));
            }
            let j = &self.jobs[i];
            match j.status {
                ExecutionState::Processing | ExecutionState::Running => {
                    active = active + 1;
                },
                ExecutionState::Queued => {
                    queued = queued + 1;
                },
                _ => (),
            }
            i = i + 1;
        }
        proof {
            assert(self.jobs_view().take(n as int) =~= self.jobs_view());
        }
        let uptime = if now_ms >= self.start_time {
            (now_ms - self.start_time) / 1000
        } else {
            0
        };
        EngineStats {
            total_executions: self.stats.total_executions,
            active_executions: active as u64,
            queued_executions: queued as u64,
            completed_executions: self.stats.completed_executions,
            failed_executions: self.stats.failed_executions,
            average_execution_time: self.stats.average_execution_time,
            system_load,
            memory_usage,
            uptime_seconds: uptime,
        }
    }

    /// One worker step: take the oldest queued job, mark it `Processing`,
    /// stamp `started_at`, and hand its request out for execution.
    ///
    /// Returns `None` when the queue is empty, and also when the dequeued
    /// job is no longer in `Queued` in the store (it was cancelled while
    /// waiting): the terminal record is left untouched and nothing runs.
    ///
    /// FIFO starts: the stamped `started_at` is the engine clock, which is
    /// at or after every `started_at` already set — so jobs start in the
    /// order the worker picks them, which is the order they were enqueued.
    pub fn worker_pick(&mut self, now_ms: u64) -> (res: Option<ExecutionRequest>)
        requires
            old(self).wf(),
        ensures
            final(self).wf(),
            final(self).stats_spec() == old(self).stats_spec(),
            final(self).start_time_spec() == old(self).start_time_spec(),
            final(self).executor_spec() == old(self).executor_spec(),
            old(self).queue_view().len() == 0 ==> res is None && final(self).jobs_view() == old(self).jobs_view() && final(self).queue_view() == old(self).queue_view() && final(self).clock_spec() == old(self).clock_spec(),
            old(self).queue_view().len() > 0 ==> {
                let qjob = old(self).queue_view()[0];
                &&& final(self).queue_view() == old(self).queue_view().drop_first()
                &&& match find_job(old(self).jobs_view(), qjob.id@) {
                    Some(i) => {
                        let j = old(self).jobs_view()[i];
                        if j.status == ExecutionState::Queued {
                            &&& res is Some
                            &&& res->0 == j.request
                            &&& step_allowed(j.status, ExecutionState::Processing)
                            &&& final(self).clock_spec() == advanced_clock(
                                old(self).clock_spec(),
                                now_ms,
                            )
                            &&& final(self).jobs_view() == old(self).jobs_view().update(
                                i,
                                ExecutionJob {
                                    status: ExecutionState::Processing,
                                    started_at: Some(final(self).clock_spec()),
                                    ..j
                                },
                            )
                            &&& forall|k: int|
                                0 <= k < old(self).jobs_view().len() && (#[trigger] old(self).jobs_view()[k]).started_at is Some ==> old(self).jobs_view()[k].started_at->0 <= final(self).clock_spec()
                        } else {
                            res is None && final(self).jobs_view() == old(self).jobs_view()
                                && final(self).clock_spec() == old(self).clock_spec()
                        }
                    },
                    None => res is None && final(self).jobs_view() == old(self).jobs_view()
                        && final(self).clock_spec() == old(self).clock_spec(),
                }
            },
    {
        let dequeued = match self.queue.dequeue() {
            Some(job) => job,
            None => {
                return None;
            },
        };
        let idx = match self.find_index(&dequeued.id) {
            Some(i) => i,
            None => {
                return None;
            },
        };
        {
            let j = &self.jobs[idx];
            match j.status {
                ExecutionState::Queued => (),
                _ => {
                    return None;
                },
            }
        }
        let t = if now_ms > self.clock {
            now_ms
        } else {
            self.clock
        };
        let ghost old_jobs = self.jobs@;
        let j = &self.jobs[idx];
        let request = j.request.clone();
        let updated = ExecutionJob {
            id: j.id.clone(),
            request: j.request.clone(),
            status: ExecutionState::Processing,
            created_at: j.created_at,
            started_at: Some(t),
            finished_at: None,
            result: None,
        };
        self.jobs.set(idx, updated);
        self.clock = t;
        proof {
            assert(old_jobs[idx as int].finished_at is None);
            assert(old_jobs[idx as int].result is None);
            assert forall|i: int|
                0 <= i < self.jobs_view().len() implies job_wf(
                #[trigger] self.jobs_view()[i],
                self.clock_spec(),
            ) by {
                if i != idx {
                    assert(self.jobs_view()[i] == old_jobs[i]);
                    lemma_job_wf_clock_mono(old_jobs[i], old(self).clock_spec(), t);
                }
            }
        }
        Some(request)
    }

    /// The other worker step: record the outcome of an executed job.
    ///
    /// The result is written back only when the stored job is still active
    /// (Processing or Running): the job becomes terminal with the result's
    /// status, or `InternalError` for an operational failure — then the
    /// stored result carries the short diagnostic in its stderr — and
    /// `finished_at` is stamped. When the stored job is already terminal —
    /// it was cancelled while running — the outcome is discarded and the
    /// stored record does not change. Returns whether the outcome was
    /// recorded.
    pub fn worker_finish(
        &mut self,
        id: &String,
        outcome: Result<ExecutionResult, EngineError>,
        now_ms: u64,
    ) -> (res: bool)
        requires
            old(self).wf(),
        ensures
            final(self).wf(),
            final(self).queue_view() == old(self).queue_view(),
            final(self).start_time_spec() == old(self).start_time_spec(),
            final(self).executor_spec() == old(self).executor_spec(),
            match find_job(old(self).jobs_view(), id@) {
                None => !res && final(self).jobs_view() == old(self).jobs_view() && final(self).stats_spec() == old(self).stats_spec() && final(self).clock_spec() == old(self).clock_spec(),
                Some(i) => {
                    let j = old(self).jobs_view()[i];
                    if is_active(j.status) {
                        &&& res
                        &&& step_allowed(j.status, final(self).jobs_view()[i].status)
                        &&& final(self).clock_spec() == advanced_clock(
                            old(self).clock_spec(),
                            now_ms,
                        )
                        &&& final(self).jobs_view()[i].finished_at == Some(
                            final(self).clock_spec(),
                        )
                        &&& (match outcome {
                            Ok(r) => if is_outcome(r.status) {
                                &&& final(self).jobs_view() == old(self).jobs_view().update(
                                    i,
                                    ExecutionJob {
                                        status: r.status,
                                        finished_at: Some(final(self).clock_spec()),
                                        result: Some(r),
                                        ..j
                                    },
                                )
                                &&& final(self).stats_spec() == EngineStats {
                                    completed_executions: old(self).stats_spec().completed_executions.saturating_add(1) as u64,
                                    ..old(self).stats_spec()
                                }
                            } else {
                                &&& final(self).jobs_view() == old(self).jobs_view().update(
                                    i,
                                    ExecutionJob {
                                        status: ExecutionState::InternalError,
                                        finished_at: Some(final(self).clock_spec()),
                                        result: final(self).jobs_view()[i].result,
                                        ..j
                                    },
                                )
                                &&& final(self).jobs_view()[i].result is Some
                                &&& is_failure_diagnostic(
                                    final(self).jobs_view()[i].result->0,
                                    j,
                                    failure_message(outcome),
                                    final(self).clock_spec(),
                                )
                                &&& final(self).stats_spec() == EngineStats {
                                    failed_executions: old(self).stats_spec().failed_executions.saturating_add(1) as u64,
                                    ..old(self).stats_spec()
                                }
                            },
                            Err(_) => {
                                &&& final(self).jobs_view() == old(self).jobs_view().update(
                                    i,
                                    ExecutionJob {
                                        status: ExecutionState::InternalError,
                                        finished_at: Some(final(self).clock_spec()),
                                        result: final(self).jobs_view()[i].result,
                                        ..j
                                    },
                                )
                                &&& final(self).jobs_view()[i].result is Some
                                &&& is_failure_diagnostic(
                                    final(self).jobs_view()[i].result->0,
                                    j,
                                    failure_message(outcome),
                                    final(self).clock_spec(),
                                )
                                &&& final(self).stats_spec() == EngineStats {
                                    failed_executions: old(self).stats_spec().failed_executions.saturating_add(1) as u64,
                                    ..old(self).stats_spec()
                                }
                            },
                        })
                    } else {
                        !res && final(self).jobs_view() == old(self).jobs_view() && final(self).stats_spec() == old(self).stats_spec() && final(self).clock_spec() == old(self).clock_spec()
                    }
                },
            },
    {
        let idx = match self.find_index(id) {
            Some(i) => i,
            None => {
                return false;
            },
        };
        {
            let j = &self.jobs[idx];
            match j.status {
                ExecutionState::Processing | ExecutionState::Running => (),
                _ => {
                    return false;
                },
            }
        }
        let t = if now_ms > self.clock {
            now_ms
        } else {
            self.clock
        };
        let ghost old_jobs = self.jobs@;
        let j = &self.jobs[idx];
        let recordable = match &outcome {
            Ok(r) => match r.status {
                ExecutionState::Completed
                | ExecutionState::CompilationError
                | ExecutionState::RuntimeError
                | ExecutionState::TimeLimitExceeded
                | ExecutionState::MemoryLimitExceeded
                | ExecutionState::InternalError => true,
                _ => false,
            },
            Err(_) => false,
        };
        let updated = if recordable {
            let r = match outcome {
                Ok(r) => r,
                Err(_) => {
                    return false;
                },
            };
            ExecutionJob {
                id: j.id.clone(),
                request: j.request.clone(),
                status: r.status,
                created_at: j.created_at,
                started_at: j.started_at,
                finished_at: Some(t),
                result: Some(r),
            }
        } else {
            let e = match &outcome {
                Ok(_) => EngineError::Internal,
                Err(e) => *e,
            };
            let diagnostic = ExecutionResult {
                id: j.id.clone(),
                status: ExecutionState::InternalError,
                stdout: None,
                stderr: Some(e.message().to_owned()),
                compile_output: None,
                exit_code: None,
                signal: None,
                time: None,
                memory: None,
                created_at: j.created_at,
                finished_at: Some(t),
            };
            ExecutionJob {
                id: j.id.clone(),
                request: j.request.clone(),
                status: ExecutionState::InternalError,
                created_at: j.created_at,
                started_at: j.started_at,
                finished_at: Some(t),
                result: Some(diagnostic),
            }
        };
        self.jobs.set(idx, updated);
        if recordable {
            self.stats.completed_executions = self.stats.completed_executions.saturating_add(1);
        } else {
            self.stats.failed_executions = self.stats.failed_executions.saturating_add(1);
        }
        self.clock = t;
        proof {
            assert forall|i: int|
                0 <= i < self.jobs_view().len() implies job_wf(
                #[trigger] self.jobs_view()[i],
                self.clock_spec(),
            ) by {
                if i != idx {
                    assert(self.jobs_view()[i] == old_jobs[i]);
                    lemma_job_wf_clock_mono(old_jobs[i], old(self).clock_spec(), t);
                }
            }
        }
        true
    }
}

/// What a successful find means: the index is in range, it carries the id,
/// and nothing before it does; a miss means no job carries the id.
proof fn lemma_find_job_props(jobs: Seq<ExecutionJob>, id: Seq<char>)
    ensures
        match find_job(jobs, id) {
            Some(i) => 0 <= i < jobs.len() && jobs[i].id@ == id && forall|j: int|
                0 <= j < i ==> (#[trigger] jobs[j].id@) != id,
            None => forall|j: int| 0 <= j < jobs.len() ==> (#[trigger] jobs[j].id@) != id,
        },
    decreases jobs.len(),
{
    if jobs.len() > 0 && jobs[0].id@ != id {
        lemma_find_job_props(jobs.drop_first(), id);
        match find_job(jobs.drop_first(), id) {
            Some(i2) => {
                assert(jobs.drop_first()[i2] == jobs[i2 + 1]);
                assert forall|j: int| 0 <= j < i2 + 1 implies (#[trigger] jobs[j].id@) != id by {
                    if j > 0 {
                        assert(jobs.drop_first()[j - 1] == jobs[j]);
                    }
                }
            },
            None => {
                assert forall|j: int| 0 <= j < jobs.len() implies (#[trigger] jobs[j].id@) != id by {
                    if j > 0 {
                        assert(jobs.drop_first()[j - 1] == jobs[j]);
                    }
                }
            },
        }
    }
}

/// When no job before `i` carries the id and job `i` does, the find returns
/// `i`.
proof fn lemma_find_job_prefix_miss(jobs: Seq<ExecutionJob>, id: Seq<char>, i: int)
    requires
        0 <= i < jobs.len(),
        jobs[i].id@ == id,
        forall|j: int| 0 <= j < i ==> (#[trigger] jobs[j].id@) != id,
    ensures
        find_job(jobs, id) == Some(i),
    decreases i,
{
    if i > 0 {
        lemma_find_job_prefix_miss(jobs.drop_first(), id, i - 1);
    }
}

/// Law: every status a client can observe on a stored job sits at the end
/// of some walk of the state machine that starts at `Queued`; together with
/// the per-operation transition guarantees, a polled job only ever moves
/// along the machine's edges.
pub proof fn lemma_job_status_reachable(e: &ExecutionEngine, i: int)
    requires
        0 <= i < e.jobs_view().len(),
    ensures
        exists|t: Seq<ExecutionState>|
            crate::state::valid_trace(t) && t.last() == e.jobs_view()[i].status,
{
    crate::state::lemma_state_reachable(e.jobs_view()[i].status);
}

/// Law: in a well-formed engine no stamped `started_at` is ahead of the
/// engine clock. Since the worker stamps each picked job with the current
/// clock and the clock never moves backwards, jobs start in pick order:
/// dequeue order, which is submit order.
pub proof fn lemma_started_at_bounded(e: &ExecutionEngine, i: int)
    requires
        e.wf(),
        0 <= i < e.jobs_view().len(),
        e.jobs_view()[i].started_at is Some,
    ensures
        e.jobs_view()[i].started_at->0 <= e.clock_spec(),
{
}

/// Law: a terminal job has `finished_at` set, and its timestamps are
/// ordered: `created_at <= started_at <= finished_at`, each inequality for
/// the timestamps that are defined.
pub proof fn lemma_terminal_job_timestamps(e: &ExecutionEngine, i: int)
    requires
        e.wf(),
        0 <= i < e.jobs_view().len(),
        is_terminal(e.jobs_view()[i].status),
    ensures
        e.jobs_view()[i].finished_at is Some,
        e.jobs_view()[i].created_at <= e.jobs_view()[i].finished_at->0,
        e.jobs_view()[i].started_at is Some ==> e.jobs_view()[i].created_at
            <= e.jobs_view()[i].started_at->0 <= e.jobs_view()[i].finished_at->0,
{
}

} // verus!
