//! Core data types of the engine.
//!
//! All durations are integer milliseconds and all timestamps are integer
//! milliseconds since the UNIX epoch; memory sizes are bytes. Callers that
//! live at the I/O boundary convert between these plain values and whatever
//! clock or wire representation they use.

use vstd::prelude::*;
use crate::state::ExecutionState;

verus! {

/// An execution request, immutable once submitted.
#[derive(Debug)]
pub struct ExecutionRequest {
    /// Client-supplied unique key for the job.
    pub id: String,
    /// Language tag, matched case-insensitively against the catalog.
    pub language: String,
    /// Numeric alias for the language, used when the tag does not match.
    pub language_id: Option<u32>,
    pub source_code: String,
    pub stdin: Option<String>,
    pub compiler_options: Option<String>,
    pub command_line_arguments: Option<String>,
    /// CPU time limit in milliseconds.
    pub cpu_time_limit: Option<u64>,
    /// Extra CPU time granted past the limit, in milliseconds.
    pub cpu_extra_time: Option<u64>,
    /// Address-space cap in bytes.
    pub memory_limit: Option<u64>,
    /// Wall-clock limit in milliseconds.
    pub wall_time_limit: Option<u64>,
    /// Stack cap in bytes.
    pub stack_limit: Option<u64>,
    pub max_processes_and_or_threads: Option<u32>,
    pub enable_per_process_and_thread_time_limit: Option<bool>,
    pub enable_per_process_and_thread_memory_limit: Option<bool>,
    /// File-size cap in bytes.
    pub max_file_size: Option<u64>,
    pub redirect_stderr_to_stdout: Option<bool>,
    pub enable_network: Option<bool>,
    pub number_of_runs: Option<u32>,
    pub callback_url: Option<String>,
    /// Base64-encoded ZIP archive of auxiliary files.
    pub additional_files: Option<String>,
}

impl Clone for ExecutionRequest {
    fn clone(&self) -> (res: Self)
        ensures
            res == *self,
    {
        ExecutionRequest {
            id: self.id.clone(),
            language: self.language.clone(),
            language_id: self.language_id,
            source_code: self.source_code.clone(),
            stdin: self.stdin.clone(),
            compiler_options: self.compiler_options.clone(),
            command_line_arguments: self.command_line_arguments.clone(),
            cpu_time_limit: self.cpu_time_limit,
            cpu_extra_time: self.cpu_extra_time,
            memory_limit: self.memory_limit,
            wall_time_limit: self.wall_time_limit,
            stack_limit: self.stack_limit,
            max_processes_and_or_threads: self.max_processes_and_or_threads,
            enable_per_process_and_thread_time_limit: self.enable_per_process_and_thread_time_limit,
            enable_per_process_and_thread_memory_limit: self.enable_per_process_and_thread_memory_limit,
            max_file_size: self.max_file_size,
            redirect_stderr_to_stdout: self.redirect_stderr_to_stdout,
            enable_network: self.enable_network,
            number_of_runs: self.number_of_runs,
            callback_url: self.callback_url.clone(),
            additional_files: self.additional_files.clone(),
        }
    }
}

/// Response handed back by a successful submit.
#[derive(Debug)]
pub struct ExecutionResponse {
    pub id: String,
    pub status: String,
    pub message: String,
}

/// A point-in-time snapshot of a job's lifecycle.
#[derive(Debug)]
pub struct ExecutionStatus {
    pub id: String,
    pub status: ExecutionState,
    /// Milliseconds since the UNIX epoch.
    pub created_at: u64,
    pub started_at: Option<u64>,
    pub finished_at: Option<u64>,
    pub progress: Option<String>,
}

/// The outcome of an execution, aggregated over all of its runs.
#[derive(Debug)]
pub struct ExecutionResult {
    pub id: String,
    pub status: ExecutionState,
    pub stdout: Option<String>,
    pub stderr: Option<String>,
    pub compile_output: Option<String>,
    pub exit_code: Option<i32>,
    /// Name of the terminating signal, when one was observed.
    pub signal: Option<String>,
    /// Wall-clock time in milliseconds.
    pub time: Option<u64>,
    /// Best-effort peak memory in bytes.
    pub memory: Option<u64>,
    /// Milliseconds since the UNIX epoch.
    pub created_at: u64,
    pub finished_at: Option<u64>,
}

impl Clone for ExecutionResult {
    fn clone(&self) -> (res: Self)
        ensures
            res == *self,
    {
        ExecutionResult {
            id: self.id.clone(),
            status: self.status,
            stdout: self.stdout.clone(),
            stderr: self.stderr.clone(),
            compile_output: self.compile_output.clone(),
            exit_code: self.exit_code,
            signal: self.signal.clone(),
            time: self.time,
            memory: self.memory,
            created_at: self.created_at,
            finished_at: self.finished_at,
        }
    }
}

/// A language offered by the engine, as reported to clients.
#[derive(Debug)]
pub struct LanguageInfo {
    pub id: u32,
    pub name: String,
    pub version: String,
    pub compile_cmd: Option<String>,
    pub run_cmd: String,
}

/// Health snapshot of the service.
#[derive(Debug)]
pub struct HealthResponse {
    pub status: String,
    pub engine: String,
    pub version: String,
    /// Milliseconds since the UNIX epoch.
    pub timestamp: u64,
}

impl HealthResponse {
    /// A healthy snapshot for this engine at the given time.
    pub fn healthy(version: String, now_ms: u64) -> (res: Self)
        ensures
            res.status@ == "healthy"@,
            res.engine@ == "rust"@,
            res.version == version,
            res.timestamp == now_ms,
    {
        HealthResponse {
            status: String::from_str("healthy"),
            engine: String::from_str("rust"),
            version,
            timestamp: now_ms,
        }
    }
}

/// Engine-wide counters and host metrics.
///
/// `average_execution_time` is in milliseconds and `system_load` is the
/// one-minute load average scaled by 100.
#[derive(Clone, Copy, Debug, PartialEq, Eq, Structural)]
pub struct EngineStats {
    pub total_executions: u64,
    pub active_executions: u64,
    pub queued_executions: u64,
    pub completed_executions: u64,
    pub failed_executions: u64,
    pub average_execution_time: u64,
    pub system_load: u64,
    pub memory_usage: u64,
    pub uptime_seconds: u64,
}

impl Default for EngineStats {
    /// All counters start at zero.
    fn default() -> (res: Self)
        ensures
            res == EngineStats::zero(),
    {
        EngineStats {
            total_executions: 0,
            active_executions: 0,
            queued_executions: 0,
            completed_executions: 0,
            failed_executions: 0,
            average_execution_time: 0,
            system_load: 0,
            memory_usage: 0,
            uptime_seconds: 0,
        }
    }
}

impl EngineStats {
    /// The all-zero statistics record.
    pub open spec fn zero() -> EngineStats {
        EngineStats {
            total_executions: 0,
            active_executions: 0,
            queued_executions: 0,
            completed_executions: 0,
            failed_executions: 0,
            average_execution_time: 0,
            system_load: 0,
            memory_usage: 0,
            uptime_seconds: 0,
        }
    }
}

/// Answer to a cancellation request.
#[derive(Debug)]
pub struct CancelResponse {
    pub cancelled: bool,
    pub message: String,
}

/// The server-side record tracking a submission from queue to terminal state.
#[derive(Debug)]
pub struct ExecutionJob {
    pub id: String,
    pub request: ExecutionRequest,
    pub status: ExecutionState,
    /// Milliseconds since the UNIX epoch.
    pub created_at: u64,
    /// Set exactly when the worker picks the job up.
    pub started_at: Option<u64>,
    /// Set when the job reaches a terminal state.
    pub finished_at: Option<u64>,
    pub result: Option<ExecutionResult>,
}

impl Clone for ExecutionJob {
    fn clone(&self) -> (res: Self)
        ensures
            res == *self,
    {
        ExecutionJob {
            id: self.id.clone(),
            request: self.request.clone(),
            status: self.status,
            created_at: self.created_at,
            started_at: self.started_at,
            finished_at: self.finished_at,
            result: match &self.result {
                Some(r) => Some(r.clone()),
                None => None,
            },
        }
    }
}

/// Measured usage of one finished run.
#[derive(Debug)]
pub struct ExecutionMetrics {
    /// CPU time in milliseconds.
    pub cpu_time: u64,
    /// Peak memory in bytes.
    pub memory_peak: u64,
    /// Wall-clock time in milliseconds.
    pub wall_time: u64,
    pub exit_code: i32,
    pub signal: Option<String>,
}

impl Default for ExecutionMetrics {
    fn default() -> (res: Self)
        ensures
            res.cpu_time == 0,
            res.memory_peak == 0,
            res.wall_time == 0,
            res.exit_code == 0,
            res.signal is None,
    {
        ExecutionMetrics { cpu_time: 0, memory_peak: 0, wall_time: 0, exit_code: 0, signal: None }
    }
}

/// The errors the engine reports.
///
/// The first four are user input errors raised synchronously at submit or
/// while preparing a run; the rest are operational failures that a worker
/// turns into an `InternalError` terminal state.
#[derive(Clone, Copy, Debug, PartialEq, Eq, Structural)]
pub enum EngineError {
    /// The language tag and numeric alias both miss the catalog.
    UnsupportedLanguage,
    /// The auxiliary archive does not decode, does not parse, or holds an
    /// unsafe entry.
    BadArchive,
    /// The submitted source code is empty.
    EmptySource,
    /// A job with the same id already exists.
    DuplicateId,
    /// The child process could not be spawned.
    SpawnFailed,
    /// An I/O error on the child's pipes.
    RuntimeIO,
    /// Installing resource limits on the child failed.
    SandboxSetupFailed,
    /// Any other unexpected failure.
    Internal,
}

impl EngineError {
    /// A short diagnostic for the error, suitable for a result's stderr.
    pub fn message(&self) -> (res: &'static str)
        ensures
            res@ == self.message_spec(),
    {
        match self {
            EngineError::UnsupportedLanguage => "unsupported language",
            EngineError::BadArchive => "bad additional files archive",
            EngineError::EmptySource => "empty source code",
            EngineError::DuplicateId => "duplicate job id",
            EngineError::SpawnFailed => "failed to spawn process",
            EngineError::RuntimeIO => "i/o error while running process",
            EngineError::SandboxSetupFailed => "failed to set up sandbox",
            EngineError::Internal => "internal error",
        }
    }

    /// The diagnostic text for each error.
    pub open spec fn message_spec(&self) -> Seq<char> {
        match self {
            EngineError::UnsupportedLanguage => "unsupported language"@,
            EngineError::BadArchive => "bad additional files archive"@,
            EngineError::EmptySource => "empty source code"@,
            EngineError::DuplicateId => "duplicate job id"@,
            EngineError::SpawnFailed => "failed to spawn process"@,
            EngineError::RuntimeIO => "i/o error while running process"@,
            EngineError::SandboxSetupFailed => "failed to set up sandbox"@,
            EngineError::Internal => "internal error"@,
        }
    }

    /// Whether the error is a user input error (rejected at submit) rather
    /// than an operational failure.
    pub open spec fn is_user_error(&self) -> bool {
        match self {
            EngineError::UnsupportedLanguage
            | EngineError::BadArchive
            | EngineError::EmptySource
            | EngineError::DuplicateId => true,
            _ => false,
        }
    }
}

} // verus!
