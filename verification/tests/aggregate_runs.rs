use rust_engine::aggregate::aggregate_results;
use rust_engine::state::ExecutionState;
use rust_engine::types::ExecutionResult;

fn run(stdout: &str, stderr: &str, status: ExecutionState, exit: i32, time: u64, memory: u64) -> ExecutionResult {
    ExecutionResult {
        id: "agg".to_string(),
        status,
        stdout: Some(stdout.to_string()),
        stderr: Some(stderr.to_string()),
        compile_output: None,
        exit_code: Some(exit),
        signal: None,
        time: Some(time),
        memory: Some(memory),
        created_at: 0,
        finished_at: Some(1),
    }
}

fn completed(stdout: &str, time: u64, memory: u64) -> ExecutionResult {
    run(stdout, "", ExecutionState::Completed, 0, time, memory)
}

#[test]
fn no_results_is_internal_error() {
    let res = aggregate_results(&"agg".to_string(), &Vec::new(), 5, 9);
    assert_eq!(res.status, ExecutionState::InternalError);
    assert_eq!(res.exit_code, Some(-1));
    assert_eq!(res.time, Some(0));
    assert_eq!(res.memory, Some(0));
}

#[test]
fn single_result_is_returned_verbatim() {
    let only = completed("solo\n", 17, 2048);
    let res = aggregate_results(&"agg".to_string(), &vec![only.clone()], 5, 9);
    assert_eq!(res.stdout, only.stdout);
    assert_eq!(res.time, only.time);
    assert_eq!(res.finished_at, only.finished_at);
    assert_eq!(res.status, ExecutionState::Completed);
}

#[test]
fn three_runs_are_joined_with_markers() {
    // number_of_runs = 3, the program prints "x" each time.
    let runs = vec![completed("x", 1, 10), completed("x", 2, 20), completed("x", 3, 30)];
    let res = aggregate_results(&"agg".to_string(), &runs, 5, 9);
    assert_eq!(res.status, ExecutionState::Completed);
    assert_eq!(
        res.stdout.as_deref(),
        Some("x\n--- Run 2 ---\nx\n--- Run 3 ---\nx")
    );
    assert_eq!(res.stdout.as_deref().unwrap().matches('x').count(), 3);
}

#[test]
fn time_sums_and_memory_maxes() {
    let runs = vec![completed("", 10, 100), completed("", 20, 400), completed("", 30, 200)];
    let res = aggregate_results(&"agg".to_string(), &runs, 5, 9);
    assert_eq!(res.time, Some(60));
    assert_eq!(res.memory, Some(400));
}

#[test]
fn status_is_completed_iff_every_run_completed() {
    let good = vec![completed("", 1, 1), completed("", 1, 1)];
    assert_eq!(
        aggregate_results(&"agg".to_string(), &good, 0, 1).status,
        ExecutionState::Completed
    );

    let mixed = vec![
        completed("", 1, 1),
        run("", "late", ExecutionState::TimeLimitExceeded, -1, 1, 1),
        run("", "bad", ExecutionState::RuntimeError, 2, 1, 1),
    ];
    let res = aggregate_results(&"agg".to_string(), &mixed, 0, 1);
    // The first failure wins, both for the status and for the exit code.
    assert_eq!(res.status, ExecutionState::TimeLimitExceeded);
    assert_eq!(res.exit_code, Some(-1));
}

#[test]
fn stderr_lines_are_prefixed_and_empty_ones_dropped() {
    let runs = vec![
        run("a", "", ExecutionState::Completed, 0, 1, 1),
        run("b", "warning", ExecutionState::Completed, 0, 1, 1),
        run("c", "oops", ExecutionState::Completed, 0, 1, 1),
    ];
    let res = aggregate_results(&"agg".to_string(), &runs, 0, 1);
    assert_eq!(res.stderr.as_deref(), Some("Run 2: warning\nRun 3: oops\n"));
}

#[test]
fn compile_output_comes_from_the_first_run() {
    let mut first = completed("a", 1, 1);
    first.compile_output = Some("built fine".to_string());
    let mut second = completed("b", 1, 1);
    second.compile_output = Some("ignored".to_string());
    let res = aggregate_results(&"agg".to_string(), &vec![first, second], 0, 1);
    assert_eq!(res.compile_output.as_deref(), Some("built fine"));
}
