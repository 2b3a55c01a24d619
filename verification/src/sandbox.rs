//! The sandbox policy: which OS resource caps a child process gets.
//!
//! Installing the caps happens in the child between fork and exec and is the
//! caller's job; this module decides, from the effective [`ResourceLimits`],
//! the exact list of settings to install. CPU time is capped at
//! `cpu_time + cpu_extra_time` (whole seconds, as the OS interface takes),
//! address space, stack and file size at their byte limits, processes at
//! their count, and core dumps at zero.

use vstd::prelude::*;
use crate::limits::ResourceLimits;

verus! {

/// The OS resources the sandbox caps.
#[derive(Clone, Copy, Debug, PartialEq, Eq, Structural)]
pub enum RlimitResource {
    /// CPU seconds.
    CpuTime,
    /// Address space, bytes.
    AddressSpace,
    /// Stack, bytes.
    Stack,
    /// File size, bytes.
    FileSize,
    /// Processes and threads.
    Processes,
    /// Core dump size, bytes.
    CoreDump,
}

/// One cap to install: both the soft and the hard value are set.
#[derive(Clone, Copy, Debug, PartialEq, Eq, Structural)]
pub struct RlimitSetting {
    pub resource: RlimitResource,
    pub soft: u64,
    pub hard: u64,
}

/// A sandbox configured for one execution.
pub struct Sandbox {
    limits: ResourceLimits,
}

/// The CPU cap in whole seconds: the CPU allowance plus the extra time,
/// truncated to seconds (saturating at the integer's range).
pub open spec fn cpu_seconds_spec(limits: ResourceLimits) -> u64 {
    if limits.cpu_time + limits.cpu_extra_time <= u64::MAX {
        ((limits.cpu_time + limits.cpu_extra_time) / 1000) as u64
    } else {
        (u64::MAX / 1000) as u64
    }
}

/// A cap with equal soft and hard values.
pub open spec fn both(resource: RlimitResource, value: u64) -> RlimitSetting {
    RlimitSetting { resource, soft: value, hard: value }
}

/// The full list of settings derived from the limits, in the order they are
/// installed.
pub open spec fn settings_spec(limits: ResourceLimits) -> Seq<RlimitSetting> {
    seq![
        both(RlimitResource::CpuTime, cpu_seconds_spec(limits)),
        both(RlimitResource::AddressSpace, limits.memory),
        both(RlimitResource::Stack, limits.stack_limit),
        both(RlimitResource::FileSize, limits.file_size),
        both(RlimitResource::Processes, limits.processes as u64),
        both(RlimitResource::CoreDump, 0u64),
    ]
}

impl Sandbox {
    /// The limits this sandbox enforces.
    pub closed spec fn limits_spec(&self) -> ResourceLimits {
        self.limits
    }

    /// Create a sandbox for the given limits.
    pub fn new(limits: ResourceLimits) -> (res: Self)
        ensures
            res.limits_spec() == limits,
    {
        Sandbox { limits }
    }

    /// The caps to install on the child, in order: CPU seconds (allowance
    /// plus extra time), address space, stack, file size, process count, and
    /// a zero core-dump size. Soft and hard values are equal throughout.
    pub fn rlimit_settings(&self) -> (res: Vec<RlimitSetting>)
        ensures
            res@ == settings_spec(self.limits_spec()),
    {
        let cpu_ms = self.limits.cpu_time.saturating_add(self.limits.cpu_extra_time);
        let cpu_seconds = cpu_ms / 1000;
        let mut settings: Vec<RlimitSetting> = Vec::new();
        settings.push(RlimitSetting { resource: RlimitResource::CpuTime, soft: cpu_seconds, hard: cpu_seconds });
        settings.push(
            RlimitSetting {
                resource: RlimitResource::AddressSpace,
                soft: self.limits.memory,
                hard: self.limits.memory,
            },
        );
        settings.push(
            RlimitSetting {
                resource: RlimitResource::Stack,
                soft: self.limits.stack_limit,
                hard: self.limits.stack_limit,
            },
        );
        settings.push(
            RlimitSetting {
                resource: RlimitResource::FileSize,
                soft: self.limits.file_size,
                hard: self.limits.file_size,
            },
        );
        let procs = self.limits.processes as u64;
        settings.push(RlimitSetting { resource: RlimitResource::Processes, soft: procs, hard: procs });
        settings.push(RlimitSetting { resource: RlimitResource::CoreDump, soft: 0, hard: 0 });
        proof {
            assert(settings@ =~= settings_spec(self.limits_spec()));
        }
        settings
    }
}

} // verus!
