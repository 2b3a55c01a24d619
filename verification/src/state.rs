//! The job lifecycle state machine.
//!
//! A job starts in `Queued`, is picked up by the worker (`Processing`,
//! optionally `Running` once the child is spawned), and ends in exactly one
//! terminal state. Cancellation is allowed from any pre-terminal state.
//! Terminal states never change.

use vstd::prelude::*;

verus! {

/// The lifecycle state of an execution job.
#[derive(Clone, Copy, Debug, PartialEq, Eq, Structural)]
pub enum ExecutionState {
    Queued,
    Processing,
    Running,
    Completed,
    CompilationError,
    RuntimeError,
    TimeLimitExceeded,
    MemoryLimitExceeded,
    Cancelled,
    InternalError,
}

/// A terminal state admits no further transition.
pub open spec fn is_terminal(s: ExecutionState) -> bool {
    match s {
        ExecutionState::Queued | ExecutionState::Processing | ExecutionState::Running => false,
        _ => true,
    }
}

/// States counted as actively executing.
pub open spec fn is_active(s: ExecutionState) -> bool {
    s == ExecutionState::Processing || s == ExecutionState::Running
}

/// A terminal state produced by classifying a finished (or failed) run.
pub open spec fn is_outcome(s: ExecutionState) -> bool {
    is_terminal(s) && s != ExecutionState::Cancelled
}

/// The edges of the state machine: `step_allowed(a, b)` holds exactly when
/// a job may move from `a` to `b` in one step.
pub open spec fn step_allowed(a: ExecutionState, b: ExecutionState) -> bool {
    ||| (a == ExecutionState::Queued && b == ExecutionState::Processing)
    ||| (a == ExecutionState::Processing && b == ExecutionState::Running)
    ||| (!is_terminal(a) && b == ExecutionState::Cancelled)
    ||| (is_active(a) && is_outcome(b))
}

/// One observation step: the status either stays put or follows an edge.
pub open spec fn transition_ok(a: ExecutionState, b: ExecutionState) -> bool {
    a == b || step_allowed(a, b)
}

/// A trace of statuses that starts at `Queued` and only follows edges.
pub open spec fn valid_trace(t: Seq<ExecutionState>) -> bool {
    &&& t.len() > 0
    &&& t[0] == ExecutionState::Queued
    &&& forall|i: int| 1 <= i < t.len() ==> #[trigger] step_allowed(t[i - 1], t[i])
}

/// Law: terminal states never change. No edge leaves a terminal state, so
/// any allowed observation step out of one is a stutter.
pub proof fn lemma_terminal_is_final(a: ExecutionState, b: ExecutionState)
    requires
        is_terminal(a),
        transition_ok(a, b),
    ensures
        a == b,
{
}

/// Law: every state of the machine is reachable from `Queued` along the
/// allowed edges, so any status a client can observe sits on some valid
/// trace.
pub proof fn lemma_state_reachable(s: ExecutionState)
    ensures
        exists|t: Seq<ExecutionState>| valid_trace(t) && t.last() == s,
{
    let q = ExecutionState::Queued;
    let p = ExecutionState::Processing;
    match s {
        ExecutionState::Queued => {
            let t = seq![q];
            assert(valid_trace(t) && t.last() == s);
        },
        ExecutionState::Processing => {
            let t = seq![q, p];
            assert(valid_trace(t) && t.last() == s);
        },
        ExecutionState::Running => {
            let t = seq![q, p, ExecutionState::Running];
            assert(valid_trace(t) && t.last() == s);
        },
        _ => {
            let t = seq![q, p, s];
            assert(valid_trace(t) && t.last() == s);
        },
    }
}

/// A sequence of polled statuses: between two observations the status either
/// stayed put or moved along an edge.
pub open spec fn monotone_trace(t: Seq<ExecutionState>) -> bool {
    forall|i: int| 1 <= i < t.len() ==> #[trigger] transition_ok(t[i - 1], t[i])
}

/// Law: extending an observation sequence by one more allowed step keeps it
/// monotone, so a client polling a job only ever sees a monotone walk of the
/// machine.
pub proof fn lemma_trace_extend(t: Seq<ExecutionState>, b: ExecutionState)
    requires
        monotone_trace(t),
        t.len() > 0,
        transition_ok(t.last(), b),
    ensures
        monotone_trace(t.push(b)),
{
    let t2 = t.push(b);
    assert forall|i: int| 1 <= i < t2.len() implies #[trigger] transition_ok(t2[i - 1], t2[i]) by {
        if i < t2.len() - 1 {
            assert(transition_ok(t[i - 1], t[i]));
        }
    }
}

} // verus!
