//! Multi-run aggregation: composing one result out of up to N sequential
//! runs of the same plan.
//!
//! Stdout streams are concatenated with a `--- Run k ---` marker line before
//! every run past the first; non-empty stderr streams are prefixed with
//! `Run k: ` and joined by newlines; the time is the sum and the memory the
//! maximum over the runs; the status is `Completed` exactly when every run
//! completed, else the first non-completed status, with the first failing
//! run's exit code.

use vstd::prelude::*;
use vstd::string::StringExecFns;
use crate::state::ExecutionState;
use crate::text::{dec_digits, u64_to_dec};
use crate::types::ExecutionResult;

verus! {

/// A run's stdout as text; nothing when it was redacted.
pub open spec fn stdout_view(r: ExecutionResult) -> Seq<char> {
    match r.stdout {
        Some(s) => s@,
        None => Seq::empty(),
    }
}

/// A run's stderr as text; nothing when it was redacted.
pub open spec fn stderr_view(r: ExecutionResult) -> Seq<char> {
    match r.stderr {
        Some(s) => s@,
        None => Seq::empty(),
    }
}

/// A run's wall-clock milliseconds, 0 when unmeasured.
pub open spec fn time_of(r: ExecutionResult) -> int {
    match r.time {
        Some(t) => t as int,
        None => 0,
    }
}

/// A run's peak memory in bytes, 0 when unmeasured.
pub open spec fn memory_of(r: ExecutionResult) -> int {
    match r.memory {
        Some(m) => m as int,
        None => 0,
    }
}

/// The sum of the runs' wall-clock times.
pub open spec fn sum_times(rs: Seq<ExecutionResult>) -> int
    decreases rs.len(),
{
    if rs.len() == 0 {
        0
    } else {
        sum_times(rs.drop_last()) + time_of(rs.last())
    }
}

/// The maximum of the runs' peak memories (0 when there are none).
pub open spec fn max_memory(rs: Seq<ExecutionResult>) -> int
    decreases rs.len(),
{
    if rs.len() == 0 {
        0
    } else {
        let rest = max_memory(rs.drop_last());
        if memory_of(rs.last()) > rest {
            memory_of(rs.last())
        } else {
            rest
        }
    }
}

/// Whether every run completed.
pub open spec fn all_completed(rs: Seq<ExecutionResult>) -> bool {
    forall|i: int| 0 <= i < rs.len() ==> (#[trigger] rs[i]).status == ExecutionState::Completed
}

/// The index of the first run that did not complete, if any.
pub open spec fn first_fail_idx(rs: Seq<ExecutionResult>) -> Option<int>
    decreases rs.len(),
{
    if rs.len() == 0 {
        None
    } else {
        match first_fail_idx(rs.drop_last()) {
            Some(i) => Some(i),
            None => if rs.last().status != ExecutionState::Completed {
                Some(rs.len() - 1)
            } else {
                None
            },
        }
    }
}

/// Law: no run fails exactly when every run completed, so the aggregated
/// status is `Completed` iff the whole batch succeeded.
pub proof fn lemma_first_fail_iff_not_all_completed(rs: Seq<ExecutionResult>)
    ensures
        first_fail_idx(rs) is None <==> all_completed(rs),
        first_fail_idx(rs) is Some ==> {
            let i = first_fail_idx(rs)->0;
            &&& 0 <= i < rs.len()
            &&& rs[i].status != ExecutionState::Completed
            &&& forall|j: int|
                0 <= j < i ==> (#[trigger] rs[j]).status == ExecutionState::Completed
        },
    decreases rs.len(),
{
    if rs.len() > 0 {
        lemma_first_fail_iff_not_all_completed(rs.drop_last());
        if first_fail_idx(rs.drop_last()) is None && rs.last().status
            == ExecutionState::Completed {
            assert forall|i: int|
                0 <= i < rs.len() implies (#[trigger] rs[i]).status
                == ExecutionState::Completed by {
                if i < rs.len() - 1 {
                    assert(rs.drop_last()[i] == rs[i]);
                }
            }
        }
        if first_fail_idx(rs.drop_last()) is Some {
            let i = first_fail_idx(rs.drop_last())->0;
            assert(rs.drop_last()[i] == rs[i]);
            assert forall|j: int| 0 <= j < i implies (#[trigger] rs[j]).status
                == ExecutionState::Completed by {
                assert(rs.drop_last()[j] == rs[j]);
            }
        } else if rs.last().status != ExecutionState::Completed {
            assert(all_completed(rs.drop_last()));
            assert forall|j: int| 0 <= j < rs.len() - 1 implies (#[trigger] rs[j]).status
                == ExecutionState::Completed by {
                assert(rs.drop_last()[j] == rs[j]);
            }
        }
    }
}

/// The marker line placed before run `k` (for `k >= 2`).
pub open spec fn run_separator(k: nat) -> Seq<char> {
    "\n--- Run "@ + dec_digits(k) + " ---\n"@
}

/// The concatenated stdout of the runs, with a marker line before every run
/// past the first.
pub open spec fn combined_stdout(rs: Seq<ExecutionResult>) -> Seq<char>
    decreases rs.len(),
{
    if rs.len() == 0 {
        Seq::empty()
    } else if rs.len() == 1 {
        stdout_view(rs[0])
    } else {
        combined_stdout(rs.drop_last()) + run_separator(rs.len() as nat) + stdout_view(rs.last())
    }
}

/// What run `k` contributes to the combined stderr: nothing when its stderr
/// is empty, else `Run k: ` followed by the text and a newline.
pub open spec fn stderr_line(k: nat, r: ExecutionResult) -> Seq<char> {
    if stderr_view(r).len() == 0 {
        Seq::empty()
    } else {
        "Run "@ + dec_digits(k) + ": "@ + stderr_view(r) + "\n"@
    }
}

/// The combined stderr of the runs.
pub open spec fn combined_stderr(rs: Seq<ExecutionResult>) -> Seq<char>
    decreases rs.len(),
{
    if rs.len() == 0 {
        Seq::empty()
    } else {
        combined_stderr(rs.drop_last()) + stderr_line(rs.len() as nat, rs.last())
    }
}

/// The aggregated exit code: 0 when every run completed, else the first
/// failing run's exit code (-1 when that run has none).
pub open spec fn aggregated_exit_code(rs: Seq<ExecutionResult>) -> i32 {
    match first_fail_idx(rs) {
        None => 0,
        Some(i) => rs[i].exit_code.unwrap_or(-1i32),
    }
}

/// The aggregated status: `Completed` when every run completed, else the
/// first non-completed status.
pub open spec fn aggregated_status(rs: Seq<ExecutionResult>) -> ExecutionState {
    match first_fail_idx(rs) {
        None => ExecutionState::Completed,
        Some(i) => rs[i].status,
    }
}

/// Compose one result out of the collected per-run results.
///
/// No results at all is an internal error. A single result is returned
/// verbatim. Otherwise the outputs are combined as documented on this
/// module, the time is the (saturating) sum, the memory the maximum, the
/// compile output the first run's, and status and exit code follow the
/// first failure.
pub fn aggregate_results(
    id: &String,
    results: &Vec<ExecutionResult>,
    created_at: u64,
    now: u64,
) -> (res: ExecutionResult)
    ensures
        results@.len() == 0 ==> {
            &&& res.status == ExecutionState::InternalError
            &&& res.exit_code == Some(-1i32)
            &&& res.time == Some(0u64)
            &&& res.memory == Some(0u64)
            &&& res.id@ == id@
            &&& res.created_at == created_at
            &&& res.finished_at == Some(now)
        },
        results@.len() == 1 ==> res == results@[0],
        results@.len() >= 2 ==> {
            &&& res.id@ == id@
            &&& res.status == aggregated_status(results@)
            &&& res.stdout is Some && res.stdout->0@ == combined_stdout(results@)
            &&& res.stderr is Some && res.stderr->0@ == combined_stderr(results@)
            &&& res.compile_output == results@[0].compile_output
            &&& res.exit_code == Some(aggregated_exit_code(results@))
            &&& res.signal is None
            &&& res.time is Some && res.time->0 == if sum_times(results@) <= u64::MAX {
                sum_times(results@)
            } else {
                u64::MAX as int
            }
            &&& res.memory == Some(max_memory(results@) as u64)
            &&& res.created_at == created_at
            &&& res.finished_at == Some(now)
        },
        results@.len() >= 1 ==> ((res.status == ExecutionState::Completed) <==> all_completed(
            results@,
        )),
{
    let n = results.len();
    if n == 0 {
        return ExecutionResult {
            id: id.clone(),
            status: ExecutionState::InternalError,
            stdout: Some(String::from_str("No results")),
            stderr: Some(String::from_str("No execution results")),
            compile_output: None,
            exit_code: Some(-1),
            signal: None,
            time: Some(0),
            memory: Some(0),
            created_at,
            finished_at: Some(now),
        };
    }
    if n == 1 {
        let res = results[0].clone();
        proof {
            lemma_first_fail_iff_not_all_completed(results@);
            if results@[0].status == ExecutionState::Completed {
                assert(all_completed(results@));
            }
        }
        return res;
    }
    let mut combined_out = String::new();
    let mut combined_err = String::new();
    let mut total_time: u64 = 0;
    let mut max_mem: u64 = 0;
    let mut i: usize = 0;
    while i < n
        invariant
            n == results@.len(),
            n >= 2,
            0 <= i <= n,
            combined_out@ == combined_stdout(results@.take(i as int)),
            combined_err@ == combined_stderr(results@.take(i as int)),
            total_time == if sum_times(results@.take(i as int)) <= u64::MAX {
                sum_times(results@.take(i as int))
            } else {
                u64::MAX as int
            },
            max_mem == max_memory(results@.take(i as int)),
        decreases n - i,
    {
        let r = &results[i];
        proof {
            assert(results@.take(i + 1).drop_last() =~= results@.take(i as int));
            assert(results@.take(i + 1).last() == results@[i as int]);
            assert(sum_times(results@.take(i as int)) >= 0) by {
                lemma_sum_times_nonneg(results@.take(i as int));
            }
        }
        if i > 0 {
            combined_out.append("\n--- Run ");
            let num = u64_to_dec((i as u64) + 1);
            combined_out.append(num.as_str());
            combined_out.append(" ---\n");
        }
        match &r.stdout {
            Some(s) => combined_out.append(s.as_str()),
            None => (),
        }
        match &r.stderr {
            Some(s) => if !s.as_str().is_empty() {
                combined_err.append("Run ");
                let num = u64_to_dec((i as u64) + 1);
                combined_err.append(num.as_str());
                combined_err.append(": ");
                combined_err.append(s.as_str());
                combined_err.append("\n");
            },
            None => (),
        }
        match r.time {
            Some(t) => {
                total_time = total_time.saturating_add(t);
            },
            None => (),
        }
        match r.memory {
            Some(m) => {
                if m > max_mem {
                    max_mem = m;
                }
            },
            None => (),
        }
        i = i + 1;
    }
    proof {
        assert(results@.take(n as int) =~= results@);
    }
    let (status, exit_code) = first_failure(results);
    proof {
        lemma_first_fail_iff_not_all_completed(results@);
    }
    ExecutionResult {
        id: id.clone(),
        status,
        stdout: Some(combined_out),
        stderr: Some(combined_err),
        compile_output: match &results[0].compile_output {
            Some(s) => Some(s.clone()),
            None => None,
        },
        exit_code: Some(exit_code),
        signal: None,
        time: Some(total_time),
        memory: Some(max_mem),
        created_at,
        finished_at: Some(now),
    }
}

/// The times sum to something non-negative.
proof fn lemma_sum_times_nonneg(rs: Seq<ExecutionResult>)
    ensures
        sum_times(rs) >= 0,
    decreases rs.len(),
{
    if rs.len() > 0 {
        lemma_sum_times_nonneg(rs.drop_last());
    }
}

/// The aggregated status and exit code: `Completed` and 0 when every run
/// completed, else the first non-completed run's status and exit code.
fn first_failure(results: &Vec<ExecutionResult>) -> (res: (ExecutionState, i32))
    ensures
        res.0 == aggregated_status(results@),
        res.1 == aggregated_exit_code(results@),
{
    proof {
        lemma_first_fail_iff_not_all_completed(results@);
    }
    let n = results.len();
    let mut i: usize = 0;
    while i < n
        invariant
            n == results@.len(),
            0 <= i <= n,
            forall|j: int|
                0 <= j < i ==> (#[trigger] results@[j]).status == ExecutionState::Completed,
        decreases n - i,
    {
        let r = &results[i];
        if !matches!(r.status, ExecutionState::Completed) {
            proof {
                lemma_first_fail_iff_not_all_completed(results@);
                let k = first_fail_idx(results@)->0;
                if k < i {
                    assert(results@[k].status == ExecutionState::Completed);
                }
                if k > i {
                    assert(results@[i as int].status == ExecutionState::Completed);
                }
                assert(k == i);
            }
            let exit = match r.exit_code {
                Some(c) => c,
                None => -1,
            };
            return (r.status, exit);
        }
        i = i + 1;
    }
    proof {
        lemma_first_fail_iff_not_all_completed(results@);
        assert(all_completed(results@));
    }
    (ExecutionState::Completed, 0)
}

} // verus!
