//! The decision side of the process runner.
//!
//! The runner proper spawns a child with stdout and stderr piped, feeds it
//! the stdin file when one is present, races the wait against the wall-clock
//! limit, and observes raw outputs. All of that is I/O and lives outside the
//! library; it reports back through a [`CommandResult`]. This module holds
//! what can be decided about such an observation: how the two output streams
//! are composed, what a timed-out observation looks like, and which terminal
//! state a finished run maps to.

use vstd::prelude::*;
use vstd::string::StringExecFns;
use crate::state::ExecutionState;
use crate::text::{dec_digits, u64_to_dec};

verus! {

/// What the runner observed of one command: captured output, exit status,
/// and measured usage. `execution_time` is wall-clock milliseconds.
#[derive(Debug)]
pub struct CommandResult {
    pub stdout: String,
    pub stderr: String,
    /// The child's exit code, or -1 when it is unknown (killed by a signal
    /// or by the wall-clock timer).
    pub exit_code: i32,
    /// Name of the terminating signal, when one was observed.
    pub signal: Option<String>,
    /// Elapsed wall-clock milliseconds from spawn to exit or kill.
    pub execution_time: u64,
    /// Best-effort peak memory in bytes; 0 when unobtainable.
    pub memory_usage: u64,
    /// The wall-clock limit expired and the child was killed.
    pub timed_out: bool,
    /// The address-space cap was hit.
    pub memory_exceeded: bool,
}

impl Clone for CommandResult {
    fn clone(&self) -> (res: Self)
        ensures
            res == *self,
    {
        CommandResult {
            stdout: self.stdout.clone(),
            stderr: self.stderr.clone(),
            exit_code: self.exit_code,
            signal: self.signal.clone(),
            execution_time: self.execution_time,
            memory_usage: self.memory_usage,
            timed_out: self.timed_out,
            memory_exceeded: self.memory_exceeded,
        }
    }
}

/// Compose the two captured streams. Without redirection both pass through
/// byte for byte; with redirection stderr is appended to stdout and the
/// returned stderr is empty.
pub fn compose_output(stdout: String, stderr: String, redirect_stderr_to_stdout: bool) -> (res: (
    String,
    String,
))
    ensures
        !redirect_stderr_to_stdout ==> res.0@ == stdout@ && res.1@ == stderr@,
        redirect_stderr_to_stdout ==> res.0@ == stdout@ + stderr@ && res.1@ == Seq::<
            char,
        >::empty(),
{
    if redirect_stderr_to_stdout {
        (stdout.concat(stderr.as_str()), String::new())
    } else {
        (stdout, stderr)
    }
}

/// The observation reported when the wall-clock limit expires: whatever
/// output was captured before the kill is preserved, the exit code is
/// unknown, and the kill signal is recorded.
pub fn timeout_observation(stdout: String, stderr: String, elapsed_ms: u64) -> (res: CommandResult)
    ensures
        res.stdout == stdout,
        res.stderr == stderr,
        res.exit_code == -1,
        res.signal is Some && res.signal->0@ == "SIGKILL"@,
        res.execution_time == elapsed_ms,
        res.memory_usage == 0,
        res.timed_out,
        !res.memory_exceeded,
{
    CommandResult {
        stdout,
        stderr,
        exit_code: -1,
        signal: Some(String::from_str("SIGKILL")),
        execution_time: elapsed_ms,
        memory_usage: 0,
        timed_out: true,
        memory_exceeded: false,
    }
}

/// The conventional name of a POSIX signal number; numbers without a common
/// name render as `signal N`.
pub open spec fn signal_name_spec(n: u32) -> Seq<char> {
    if n == 6 {
        "SIGABRT"@
    } else if n == 8 {
        "SIGFPE"@
    } else if n == 9 {
        "SIGKILL"@
    } else if n == 11 {
        "SIGSEGV"@
    } else if n == 15 {
        "SIGTERM"@
    } else {
        "signal "@ + dec_digits(n as nat)
    }
}

/// Render the name of the signal that terminated a child.
pub fn signal_name(n: u32) -> (res: String)
    ensures
        res@ == signal_name_spec(n),
{
    if n == 6 {
        String::from_str("SIGABRT")
    } else if n == 8 {
        String::from_str("SIGFPE")
    } else if n == 9 {
        String::from_str("SIGKILL")
    } else if n == 11 {
        String::from_str("SIGSEGV")
    } else if n == 15 {
        String::from_str("SIGTERM")
    } else {
        let digits = u64_to_dec(n as u64);
        String::from_str("signal ").concat(digits.as_str())
    }
}

/// The terminal state a run's observation classifies to.
pub open spec fn classify_spec(exit_code: i32, timed_out: bool, memory_exceeded: bool) -> ExecutionState {
    if timed_out {
        ExecutionState::TimeLimitExceeded
    } else if memory_exceeded {
        ExecutionState::MemoryLimitExceeded
    } else if exit_code == 0 {
        ExecutionState::Completed
    } else {
        ExecutionState::RuntimeError
    }
}

/// Classify a run: a timed-out child is `TimeLimitExceeded`, one that hit
/// the memory cap is `MemoryLimitExceeded`, a clean zero exit is
/// `Completed`, and anything else is `RuntimeError`.
pub fn classify_run(run: &CommandResult) -> (res: ExecutionState)
    ensures
        res == classify_spec(run.exit_code, run.timed_out, run.memory_exceeded),
        run.timed_out ==> res == ExecutionState::TimeLimitExceeded,
        !run.timed_out && run.memory_exceeded ==> res == ExecutionState::MemoryLimitExceeded,
        !run.timed_out && !run.memory_exceeded && run.exit_code == 0 ==> res
            == ExecutionState::Completed,
        !run.timed_out && !run.memory_exceeded && run.exit_code != 0 ==> res
            == ExecutionState::RuntimeError,
        crate::state::is_outcome(res),
{
    if run.timed_out {
        ExecutionState::TimeLimitExceeded
    } else if run.memory_exceeded {
        ExecutionState::MemoryLimitExceeded
    } else if run.exit_code == 0 {
        ExecutionState::Completed
    } else {
        ExecutionState::RuntimeError
    }
}

} // verus!

