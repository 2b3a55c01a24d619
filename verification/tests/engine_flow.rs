use rust_engine::engine::ExecutionEngine;
use rust_engine::state::ExecutionState;
use rust_engine::types::{EngineError, ExecutionRequest, ExecutionResult};

fn request(id: &str, language: &str, source: &str) -> ExecutionRequest {
    ExecutionRequest {
        id: id.to_string(),
        language: language.to_string(),
        language_id: None,
        source_code: source.to_string(),
        stdin: None,
        compiler_options: None,
        command_line_arguments: None,
        cpu_time_limit: None,
        cpu_extra_time: None,
        memory_limit: None,
        wall_time_limit: None,
        stack_limit: None,
        max_processes_and_or_threads: None,
        enable_per_process_and_thread_time_limit: None,
        enable_per_process_and_thread_memory_limit: None,
        max_file_size: None,
        redirect_stderr_to_stdout: None,
        enable_network: None,
        number_of_runs: None,
        callback_url: None,
        additional_files: None,
    }
}

fn completed_result(id: &str, stdout: &str, created_at: u64, now: u64) -> ExecutionResult {
    ExecutionResult {
        id: id.to_string(),
        status: ExecutionState::Completed,
        stdout: Some(stdout.to_string()),
        stderr: Some(String::new()),
        compile_output: None,
        exit_code: Some(0),
        signal: None,
        time: Some(12),
        memory: Some(1024),
        created_at,
        finished_at: Some(now),
    }
}

#[test]
fn submit_creates_queued_job() {
    let mut engine = ExecutionEngine::new(1_000);
    let resp = engine
        .submit_execution(request("job-1", "python", "print('hi')\n"), 2_000)
        .unwrap();
    assert_eq!(resp.id, "job-1");
    assert_eq!(resp.status, "queued");

    let status = engine.get_status(&"job-1".to_string()).unwrap();
    assert_eq!(status.status, ExecutionState::Queued);
    assert_eq!(status.created_at, 2_000);
    assert!(status.started_at.is_none());
    assert!(status.finished_at.is_none());
}

#[test]
fn unknown_id_is_not_found() {
    let engine = ExecutionEngine::new(0);
    assert!(engine.get_status(&"missing".to_string()).is_none());
    assert!(engine.get_result(&"missing".to_string(), true).is_none());
}

#[test]
fn duplicate_id_is_rejected() {
    let mut engine = ExecutionEngine::new(0);
    engine
        .submit_execution(request("dup", "python", "print(1)\n"), 1)
        .unwrap();
    let err = engine
        .submit_execution(request("dup", "python", "print(2)\n"), 2)
        .unwrap_err();
    assert_eq!(err, EngineError::DuplicateId);
}

#[test]
fn empty_source_is_rejected() {
    let mut engine = ExecutionEngine::new(0);
    let err = engine
        .submit_execution(request("e", "python", ""), 1)
        .unwrap_err();
    assert_eq!(err, EngineError::EmptySource);
    assert!(engine.get_status(&"e".to_string()).is_none());
}

#[test]
fn unsupported_language_is_rejected() {
    let mut engine = ExecutionEngine::new(0);
    let err = engine
        .submit_execution(request("u", "cobol", "DISPLAY 'HI'."), 1)
        .unwrap_err();
    assert_eq!(err, EngineError::UnsupportedLanguage);
    assert!(engine.get_status(&"u".to_string()).is_none());
}

#[test]
fn full_lifecycle_completes() {
    let mut engine = ExecutionEngine::new(100);
    engine
        .submit_execution(request("run-1", "python", "print('hi')\n"), 200)
        .unwrap();

    let picked = engine.worker_pick(300).unwrap();
    assert_eq!(picked.id, "run-1");
    let status = engine.get_status(&"run-1".to_string()).unwrap();
    assert_eq!(status.status, ExecutionState::Processing);
    assert_eq!(status.started_at, Some(300));

    let recorded = engine.worker_finish(
        &"run-1".to_string(),
        Ok(completed_result("run-1", "hi\n", 200, 400)),
        400,
    );
    assert!(recorded);

    let status = engine.get_status(&"run-1".to_string()).unwrap();
    assert_eq!(status.status, ExecutionState::Completed);
    assert_eq!(status.finished_at, Some(400));

    let result = engine.get_result(&"run-1".to_string(), true).unwrap();
    assert_eq!(result.stdout.as_deref(), Some("hi\n"));
    assert_eq!(result.exit_code, Some(0));
}

#[test]
fn result_output_is_redacted_on_request() {
    let mut engine = ExecutionEngine::new(0);
    engine
        .submit_execution(request("r", "python", "print('x')\n"), 1)
        .unwrap();
    engine.worker_pick(2).unwrap();
    engine.worker_finish(&"r".to_string(), Ok(completed_result("r", "x\n", 1, 3)), 3);

    let full = engine.get_result(&"r".to_string(), true).unwrap();
    assert_eq!(full.stdout.as_deref(), Some("x\n"));

    let redacted = engine.get_result(&"r".to_string(), false).unwrap();
    assert!(redacted.stdout.is_none());
    assert!(redacted.stderr.is_none());
    assert!(redacted.compile_output.is_none());
    assert_eq!(redacted.exit_code, Some(0));
    assert_eq!(redacted.time, Some(12));
}

#[test]
fn pending_result_is_a_placeholder() {
    let mut engine = ExecutionEngine::new(0);
    engine
        .submit_execution(request("p", "python", "print('x')\n"), 1)
        .unwrap();
    let placeholder = engine.get_result(&"p".to_string(), true).unwrap();
    assert_eq!(placeholder.status, ExecutionState::Queued);
    assert!(placeholder.stdout.is_none());
    assert!(placeholder.exit_code.is_none());
}

#[test]
fn cancel_while_queued() {
    let mut engine = ExecutionEngine::new(0);
    engine
        .submit_execution(request("c", "python", "print('x')\n"), 1)
        .unwrap();

    assert!(engine.cancel_execution(&"c".to_string(), 2));
    let status = engine.get_status(&"c".to_string()).unwrap();
    assert_eq!(status.status, ExecutionState::Cancelled);
    assert_eq!(status.finished_at, Some(2));

    // The worker later dequeues the job but must not overwrite the
    // terminal state.
    assert!(engine.worker_pick(3).is_none());
    let status = engine.get_status(&"c".to_string()).unwrap();
    assert_eq!(status.status, ExecutionState::Cancelled);
    assert_eq!(status.finished_at, Some(2));
}

#[test]
fn cancel_on_terminal_job_is_a_noop() {
    let mut engine = ExecutionEngine::new(0);
    engine
        .submit_execution(request("t", "python", "print('x')\n"), 1)
        .unwrap();
    engine.worker_pick(2).unwrap();
    engine.worker_finish(&"t".to_string(), Ok(completed_result("t", "x\n", 1, 3)), 3);

    assert!(!engine.cancel_execution(&"t".to_string(), 4));
    let status = engine.get_status(&"t".to_string()).unwrap();
    assert_eq!(status.status, ExecutionState::Completed);
    assert_eq!(status.finished_at, Some(3));
}

#[test]
fn cancel_unknown_id_fails() {
    let mut engine = ExecutionEngine::new(0);
    assert!(!engine.cancel_execution(&"nope".to_string(), 1));
}

#[test]
fn worker_drops_result_for_cancelled_job() {
    let mut engine = ExecutionEngine::new(0);
    engine
        .submit_execution(request("w", "python", "print('x')\n"), 1)
        .unwrap();
    engine.worker_pick(2).unwrap();
    assert!(engine.cancel_execution(&"w".to_string(), 3));

    let recorded = engine.worker_finish(&"w".to_string(), Ok(completed_result("w", "x\n", 1, 4)), 4);
    assert!(!recorded);
    let status = engine.get_status(&"w".to_string()).unwrap();
    assert_eq!(status.status, ExecutionState::Cancelled);
    let result = engine.get_result(&"w".to_string(), true).unwrap();
    assert!(result.stdout.is_none());
}

#[test]
fn worker_failure_marks_internal_error() {
    let mut engine = ExecutionEngine::new(0);
    engine
        .submit_execution(request("f", "python", "print('x')\n"), 1)
        .unwrap();
    engine.worker_pick(2).unwrap();
    let recorded = engine.worker_finish(&"f".to_string(), Err(EngineError::SpawnFailed), 3);
    assert!(recorded);
    let status = engine.get_status(&"f".to_string()).unwrap();
    assert_eq!(status.status, ExecutionState::InternalError);
    assert_eq!(status.finished_at, Some(3));
    // The stored result carries the short diagnostic in its stderr.
    let result = engine.get_result(&"f".to_string(), true).unwrap();
    assert_eq!(result.status, ExecutionState::InternalError);
    assert_eq!(result.stderr.as_deref(), Some("failed to spawn process"));
    assert!(result.stdout.is_none());
}

#[test]
fn fifo_start_order() {
    let mut engine = ExecutionEngine::new(0);
    engine
        .submit_execution(request("a", "python", "print('a')\n"), 1)
        .unwrap();
    engine
        .submit_execution(request("b", "python", "print('b')\n"), 2)
        .unwrap();

    let first = engine.worker_pick(10).unwrap();
    assert_eq!(first.id, "a");
    engine.worker_finish(&"a".to_string(), Ok(completed_result("a", "a\n", 1, 11)), 11);

    let second = engine.worker_pick(12).unwrap();
    assert_eq!(second.id, "b");

    let sa = engine.get_status(&"a".to_string()).unwrap().started_at.unwrap();
    let sb = engine.get_status(&"b".to_string()).unwrap().started_at.unwrap();
    assert!(sa <= sb);
}

#[test]
fn timestamps_are_ordered_for_terminal_jobs() {
    let mut engine = ExecutionEngine::new(0);
    engine
        .submit_execution(request("ts", "python", "print('x')\n"), 100)
        .unwrap();
    engine.worker_pick(250).unwrap();
    engine.worker_finish(&"ts".to_string(), Ok(completed_result("ts", "x\n", 100, 400)), 400);

    let status = engine.get_status(&"ts".to_string()).unwrap();
    let created = status.created_at;
    let started = status.started_at.unwrap();
    let finished = status.finished_at.unwrap();
    assert!(created <= started && started <= finished);
}

#[test]
fn clock_never_runs_backwards() {
    // A cancellation observed with an earlier wall clock still yields a
    // finished_at at or after started_at.
    let mut engine = ExecutionEngine::new(0);
    engine
        .submit_execution(request("k", "python", "print('x')\n"), 500)
        .unwrap();
    engine.worker_pick(600).unwrap();
    assert!(engine.cancel_execution(&"k".to_string(), 100));
    let status = engine.get_status(&"k".to_string()).unwrap();
    assert!(status.finished_at.unwrap() >= status.started_at.unwrap());
}

#[test]
fn stats_count_live_states() {
    let mut engine = ExecutionEngine::new(1_000);
    engine
        .submit_execution(request("s1", "python", "print(1)\n"), 1_000)
        .unwrap();
    engine
        .submit_execution(request("s2", "python", "print(2)\n"), 1_500)
        .unwrap();
    engine.worker_pick(2_000).unwrap();

    let stats = engine.get_stats(11_000, 42, 777);
    assert_eq!(stats.total_executions, 2);
    assert_eq!(stats.active_executions, 1);
    assert_eq!(stats.queued_executions, 1);
    assert_eq!(stats.completed_executions, 0);
    assert_eq!(stats.system_load, 42);
    assert_eq!(stats.memory_usage, 777);
    assert_eq!(stats.uptime_seconds, 10);

    engine.worker_finish(&"s1".to_string(), Ok(completed_result("s1", "1\n", 1_000, 3_000)), 3_000);
    let stats = engine.get_stats(12_000, 0, 0);
    assert_eq!(stats.active_executions, 0);
    assert_eq!(stats.completed_executions, 1);
}

#[test]
fn pick_on_empty_queue_returns_none() {
    let mut engine = ExecutionEngine::new(0);
    assert!(engine.worker_pick(1).is_none());
}
