//! The resource policy: effective limits and options derived from a request.
//!
//! Both derivations are pure. They fill every field with the request's value
//! or the documented default, so downstream code never re-reasons about
//! missing fields, and they restore the `wall_time >= cpu_time` invariant by
//! raising a too-small wall limit.

use vstd::prelude::*;
use crate::types::ExecutionRequest;

verus! {

/// Default CPU time limit, in milliseconds.
pub const DEFAULT_CPU_TIME_MS: u64 = 5000;

/// Default extra CPU time past the limit, in milliseconds.
pub const DEFAULT_CPU_EXTRA_TIME_MS: u64 = 500;

/// Default address-space cap: 256 MiB.
pub const DEFAULT_MEMORY_BYTES: u64 = 256 * 1024 * 1024;

/// Default wall-clock limit, in milliseconds.
pub const DEFAULT_WALL_TIME_MS: u64 = 10000;

/// Default stack cap: 64 MiB.
pub const DEFAULT_STACK_BYTES: u64 = 64 * 1024 * 1024;

/// Default file-size cap: 1 MiB.
pub const DEFAULT_FILE_SIZE_BYTES: u64 = 1024 * 1024;

/// Default cap on processes and threads.
pub const DEFAULT_PROCESSES: u32 = 1;

/// Fully populated resource limits for one execution.
///
/// Invariant (see [`ResourceLimits::wf`]): `wall_time >= cpu_time`.
#[derive(Clone, Copy, Debug, PartialEq, Eq, Structural)]
pub struct ResourceLimits {
    /// CPU time, milliseconds.
    pub cpu_time: u64,
    /// Extra CPU time granted for cleanup, milliseconds.
    pub cpu_extra_time: u64,
    /// Address-space cap, bytes.
    pub memory: u64,
    /// Wall-clock time, milliseconds.
    pub wall_time: u64,
    /// Stack cap, bytes.
    pub stack_limit: u64,
    /// File-size cap, bytes.
    pub file_size: u64,
    /// Cap on processes and threads.
    pub processes: u32,
    pub enable_per_process_time_limit: bool,
    pub enable_per_process_memory_limit: bool,
}

/// The wall-clock limit actually enforced: the requested one when it covers
/// the CPU limit, else raised to `cpu_time + cpu_extra_time + 1s` (saturating
/// at the integer's range).
pub open spec fn effective_wall_time(cpu: u64, extra: u64, wall: u64) -> u64 {
    if wall >= cpu {
        wall
    } else if cpu + extra + 1000 <= u64::MAX {
        (cpu + extra + 1000) as u64
    } else {
        u64::MAX
    }
}

impl ResourceLimits {
    /// The limits invariant: the wall clock covers the CPU allowance.
    pub open spec fn wf(&self) -> bool {
        self.wall_time >= self.cpu_time
    }

    /// The limits a request without any explicit limit gets.
    pub open spec fn default_spec() -> ResourceLimits {
        ResourceLimits {
            cpu_time: DEFAULT_CPU_TIME_MS,
            cpu_extra_time: DEFAULT_CPU_EXTRA_TIME_MS,
            memory: DEFAULT_MEMORY_BYTES,
            wall_time: DEFAULT_WALL_TIME_MS,
            stack_limit: DEFAULT_STACK_BYTES,
            file_size: DEFAULT_FILE_SIZE_BYTES,
            processes: DEFAULT_PROCESSES,
            enable_per_process_time_limit: false,
            enable_per_process_memory_limit: true,
        }
    }

    /// The limits derived from a request: each field is the request's value
    /// or the default, and the wall limit is raised when it undercuts the
    /// CPU limit.
    pub open spec fn from_request_spec(req: ExecutionRequest) -> ResourceLimits {
        let cpu = req.cpu_time_limit.unwrap_or(DEFAULT_CPU_TIME_MS);
        let extra = req.cpu_extra_time.unwrap_or(DEFAULT_CPU_EXTRA_TIME_MS);
        let wall = req.wall_time_limit.unwrap_or(DEFAULT_WALL_TIME_MS);
        ResourceLimits {
            cpu_time: cpu,
            cpu_extra_time: extra,
            memory: req.memory_limit.unwrap_or(DEFAULT_MEMORY_BYTES),
            wall_time: effective_wall_time(cpu, extra, wall),
            stack_limit: req.stack_limit.unwrap_or(DEFAULT_STACK_BYTES),
            file_size: req.max_file_size.unwrap_or(DEFAULT_FILE_SIZE_BYTES),
            processes: req.max_processes_and_or_threads.unwrap_or(DEFAULT_PROCESSES),
            enable_per_process_time_limit: req.enable_per_process_and_thread_time_limit.unwrap_or(
                false,
            ),
            enable_per_process_memory_limit: req.enable_per_process_and_thread_memory_limit
                .unwrap_or(true),
        }
    }

    /// Derive effective limits from a request, filling defaults and raising
    /// the wall limit to cover the CPU allowance.
    pub fn from_request(req: &ExecutionRequest) -> (res: Self)
        ensures
            res == Self::from_request_spec(*req),
            res.wf(),
    {
        let cpu = match req.cpu_time_limit {
            Some(v) => v,
            None => DEFAULT_CPU_TIME_MS,
        };
        let extra = match req.cpu_extra_time {
            Some(v) => v,
            None => DEFAULT_CPU_EXTRA_TIME_MS,
        };
        let wall_requested = match req.wall_time_limit {
            Some(v) => v,
            None => DEFAULT_WALL_TIME_MS,
        };
        let wall = if wall_requested >= cpu {
            wall_requested
        } else {
            cpu.saturating_add(extra).saturating_add(1000)
        };
        ResourceLimits {
            cpu_time: cpu,
            cpu_extra_time: extra,
            memory: match req.memory_limit {
                Some(v) => v,
                None => DEFAULT_MEMORY_BYTES,
            },
            wall_time: wall,
            stack_limit: match req.stack_limit {
                Some(v) => v,
                None => DEFAULT_STACK_BYTES,
            },
            file_size: match req.max_file_size {
                Some(v) => v,
                None => DEFAULT_FILE_SIZE_BYTES,
            },
            processes: match req.max_processes_and_or_threads {
                Some(v) => v,
                None => DEFAULT_PROCESSES,
            },
            enable_per_process_time_limit: match req.enable_per_process_and_thread_time_limit {
                Some(v) => v,
                None => false,
            },
            enable_per_process_memory_limit: match req.enable_per_process_and_thread_memory_limit {
                Some(v) => v,
                None => true,
            },
        }
    }
}

impl Default for ResourceLimits {
    /// The documented defaults: 5 s CPU, 0.5 s extra, 256 MiB memory, 10 s
    /// wall, 64 MiB stack, 1 MiB files, 1 process.
    fn default() -> (res: Self)
        ensures
            res == ResourceLimits::default_spec(),
            res.wf(),
    {
        ResourceLimits {
            cpu_time: DEFAULT_CPU_TIME_MS,
            cpu_extra_time: DEFAULT_CPU_EXTRA_TIME_MS,
            memory: DEFAULT_MEMORY_BYTES,
            wall_time: DEFAULT_WALL_TIME_MS,
            stack_limit: DEFAULT_STACK_BYTES,
            file_size: DEFAULT_FILE_SIZE_BYTES,
            processes: DEFAULT_PROCESSES,
            enable_per_process_time_limit: false,
            enable_per_process_memory_limit: true,
        }
    }
}

/// Fully populated execution options for one submission.
///
/// Invariant (see [`ExecutionOptions::wf`]): `number_of_runs >= 1`.
#[derive(Clone, Copy, Debug, PartialEq, Eq, Structural)]
pub struct ExecutionOptions {
    pub redirect_stderr_to_stdout: bool,
    /// Advisory; the engine does not enforce network isolation itself.
    pub enable_network: bool,
    pub number_of_runs: u32,
    pub stop_on_first_failure: bool,
}

impl ExecutionOptions {
    /// The options invariant: at least one run is performed.
    pub open spec fn wf(&self) -> bool {
        self.number_of_runs >= 1
    }

    /// The options a request without any explicit option gets.
    pub open spec fn default_spec() -> ExecutionOptions {
        ExecutionOptions {
            redirect_stderr_to_stdout: false,
            enable_network: false,
            number_of_runs: 1,
            stop_on_first_failure: true,
        }
    }

    /// The options derived from a request; a requested run count of zero is
    /// raised to one.
    pub open spec fn from_request_spec(req: ExecutionRequest) -> ExecutionOptions {
        let runs = req.number_of_runs.unwrap_or(1u32);
        ExecutionOptions {
            redirect_stderr_to_stdout: req.redirect_stderr_to_stdout.unwrap_or(false),
            enable_network: req.enable_network.unwrap_or(false),
            number_of_runs: if runs >= 1 { runs } else { 1u32 },
            stop_on_first_failure: true,
        }
    }

    /// Derive effective options from a request, filling defaults.
    pub fn from_request(req: &ExecutionRequest) -> (res: Self)
        ensures
            res == Self::from_request_spec(*req),
            res.wf(),
    {
        let runs = match req.number_of_runs {
            Some(v) => v,
            None => 1,
        };
        ExecutionOptions {
            redirect_stderr_to_stdout: match req.redirect_stderr_to_stdout {
                Some(v) => v,
                None => false,
            },
            enable_network: match req.enable_network {
                Some(v) => v,
                None => false,
            },
            number_of_runs: if runs >= 1 {
                runs
            } else {
                1
            },
            stop_on_first_failure: true,
        }
    }
}

impl Default for ExecutionOptions {
    /// One run, stderr kept separate, stop on first failure.
    fn default() -> (res: Self)
        ensures
            res == ExecutionOptions::default_spec(),
            res.wf(),
    {
        ExecutionOptions {
            redirect_stderr_to_stdout: false,
            enable_network: false,
            number_of_runs: 1,
            stop_on_first_failure: true,
        }
    }
}

} // verus!
