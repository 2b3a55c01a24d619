use rust_engine::catalog::{supported_languages, LanguageCatalog};
use rust_engine::limits::ResourceLimits;
use rust_engine::queue::ExecutionQueue;
use rust_engine::runner::{compose_output, signal_name};
use rust_engine::sandbox::{RlimitResource, Sandbox};
use rust_engine::state::ExecutionState;
use rust_engine::text::{matches_ignore_ascii_case, u64_to_dec};
use rust_engine::types::{EngineError, ExecutionJob, ExecutionRequest, HealthResponse};

#[test]
fn decimal_rendering_is_exact() {
    assert_eq!(u64_to_dec(0), "0");
    assert_eq!(u64_to_dec(7), "7");
    assert_eq!(u64_to_dec(10), "10");
    assert_eq!(u64_to_dec(305), "305");
    assert_eq!(u64_to_dec(18_446_744_073_709_551_615), "18446744073709551615");
}

#[test]
fn ascii_case_folding_matches() {
    assert!(matches_ignore_ascii_case("Python", "python"));
    assert!(matches_ignore_ascii_case("CPP", "cpp"));
    assert!(matches_ignore_ascii_case("go", "go"));
    assert!(!matches_ignore_ascii_case("python3", "python"));
    assert!(!matches_ignore_ascii_case("java", "javascript"));
}

#[test]
fn output_passes_through_without_redirection() {
    let (out, err) = compose_output("hi\n".to_string(), "warn\n".to_string(), false);
    assert_eq!(out, "hi\n");
    assert_eq!(err, "warn\n");
}

#[test]
fn redirection_appends_stderr_and_empties_it() {
    let (out, err) = compose_output("hi\n".to_string(), "warn\n".to_string(), true);
    assert_eq!(out, "hi\nwarn\n");
    assert_eq!(err, "");
}

#[test]
fn signal_names_are_conventional() {
    assert_eq!(signal_name(6), "SIGABRT");
    assert_eq!(signal_name(8), "SIGFPE");
    assert_eq!(signal_name(9), "SIGKILL");
    assert_eq!(signal_name(11), "SIGSEGV");
    assert_eq!(signal_name(15), "SIGTERM");
    assert_eq!(signal_name(27), "signal 27");
}

#[test]
fn sandbox_settings_follow_the_limits() {
    let limits = ResourceLimits {
        cpu_time: 2_000,
        cpu_extra_time: 500,
        memory: 1_048_576,
        wall_time: 4_000,
        stack_limit: 65_536,
        file_size: 1_024,
        processes: 3,
        enable_per_process_time_limit: false,
        enable_per_process_memory_limit: true,
    };
    let settings = Sandbox::new(limits).rlimit_settings();
    assert_eq!(settings.len(), 6);
    assert_eq!(settings[0].resource, RlimitResource::CpuTime);
    // 2.5 s of CPU allowance truncates to 2 whole seconds.
    assert_eq!(settings[0].soft, 2);
    assert_eq!(settings[0].hard, 2);
    assert_eq!(settings[1].resource, RlimitResource::AddressSpace);
    assert_eq!(settings[1].soft, 1_048_576);
    assert_eq!(settings[2].resource, RlimitResource::Stack);
    assert_eq!(settings[2].soft, 65_536);
    assert_eq!(settings[3].resource, RlimitResource::FileSize);
    assert_eq!(settings[3].soft, 1_024);
    assert_eq!(settings[4].resource, RlimitResource::Processes);
    assert_eq!(settings[4].soft, 3);
    assert_eq!(settings[5].resource, RlimitResource::CoreDump);
    assert_eq!(settings[5].soft, 0);
    assert_eq!(settings[5].hard, 0);
}

#[test]
fn catalog_lookup_by_tag_and_alias() {
    let catalog = LanguageCatalog::standard();
    let python = catalog.lookup("python", None).unwrap();
    assert_eq!(python.id, 71);
    assert_eq!(python.source_file, "main.py");
    assert_eq!(python.name, "Python 3");

    let java = catalog.lookup("JAVA", None).unwrap();
    assert_eq!(java.id, 62);

    let by_alias = catalog.lookup("no-such-tag", Some(73)).unwrap();
    assert_eq!(by_alias.source_file, "main.rs");

    assert!(catalog.lookup("no-such-tag", Some(9_999)).is_none());
    assert!(catalog.lookup("no-such-tag", None).is_none());
}

#[test]
fn advertised_languages_have_the_known_aliases() {
    let languages = supported_languages();
    let ids: Vec<u32> = languages.iter().map(|l| l.id).collect();
    assert_eq!(ids, vec![71, 63, 54, 50, 73]);
    assert_eq!(languages[0].name, "Python");
    assert_eq!(languages[0].run_cmd, "python3 main.py");
    assert_eq!(languages[2].compile_cmd.as_deref(), Some("g++ -o main main.cpp"));
}

#[test]
fn health_snapshot_is_well_formed() {
    let health = HealthResponse::healthy("1.2.3".to_string(), 42);
    assert_eq!(health.status, "healthy");
    assert_eq!(health.engine, "rust");
    assert_eq!(health.version, "1.2.3");
    assert_eq!(health.timestamp, 42);
}

#[test]
fn error_messages_are_short_diagnostics() {
    assert_eq!(EngineError::UnsupportedLanguage.message(), "unsupported language");
    assert_eq!(EngineError::BadArchive.message(), "bad additional files archive");
    assert_eq!(EngineError::EmptySource.message(), "empty source code");
    assert_eq!(EngineError::DuplicateId.message(), "duplicate job id");
    assert_eq!(EngineError::SpawnFailed.message(), "failed to spawn process");
    assert_eq!(EngineError::RuntimeIO.message(), "i/o error while running process");
    assert_eq!(EngineError::SandboxSetupFailed.message(), "failed to set up sandbox");
    assert_eq!(EngineError::Internal.message(), "internal error");
}

fn queued_job(id: &str) -> ExecutionJob {
    ExecutionJob {
        id: id.to_string(),
        request: ExecutionRequest {
            id: id.to_string(),
            language: "python".to_string(),
            language_id: None,
            source_code: "pass\n".to_string(),
            stdin: None,
            compiler_options: None,
            command_line_arguments: None,
            cpu_time_limit: None,
            cpu_extra_time: None,
            memory_limit: None,
            wall_time_limit: None,
            stack_limit: None,
            max_processes_and_or_threads: None,
            enable_per_process_and_thread_time_limit: None,
            enable_per_process_and_thread_memory_limit: None,
            max_file_size: None,
            redirect_stderr_to_stdout: None,
            enable_network: None,
            number_of_runs: None,
            callback_url: None,
            additional_files: None,
        },
        status: ExecutionState::Queued,
        created_at: 0,
        started_at: None,
        finished_at: None,
        result: None,
    }
}

#[test]
fn queue_is_first_in_first_out() {
    let mut queue = ExecutionQueue::new();
    assert_eq!(queue.size(), 0);
    assert!(queue.dequeue().is_none());

    queue.enqueue(queued_job("one"));
    queue.enqueue(queued_job("two"));
    queue.enqueue(queued_job("three"));
    assert_eq!(queue.size(), 3);

    assert_eq!(queue.dequeue().unwrap().id, "one");
    assert_eq!(queue.dequeue().unwrap().id, "two");
    assert_eq!(queue.size(), 1);

    queue.clear();
    assert_eq!(queue.size(), 0);
    assert!(queue.dequeue().is_none());
}
