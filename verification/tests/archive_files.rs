use std::io::{Cursor, Write};

use base64::Engine as _;
use rust_engine::archive::extract_archive;
use rust_engine::engine::ExecutionEngine;
use rust_engine::executor::CodeExecutor;
use rust_engine::types::{EngineError, ExecutionRequest};
use zip::write::SimpleFileOptions;
use zip::ZipWriter;

fn zip_of(entries: &[(&str, Option<&[u8]>)]) -> Vec<u8> {
    let mut writer = ZipWriter::new(Cursor::new(Vec::new()));
    let options = SimpleFileOptions::default();
    for (name, contents) in entries {
        match contents {
            Some(bytes) => {
                writer.start_file(*name, options).unwrap();
                writer.write_all(bytes).unwrap();
            }
            None => {
                writer.add_directory(*name, options).unwrap();
            }
        }
    }
    writer.finish().unwrap().into_inner()
}

fn encode(bytes: &[u8]) -> String {
    base64::engine::general_purpose::STANDARD.encode(bytes)
}

#[test]
fn files_are_extracted_in_order_with_contents() {
    let data = zip_of(&[
        ("lib/helper.py", Some(b"def f():\n    return 1\n".as_slice())),
        ("data.txt", Some(b"\x00\x01\xfftail".as_slice())),
    ]);
    let files = extract_archive(&encode(&data)).unwrap();
    assert_eq!(files.len(), 2);
    assert_eq!(files[0].path, "lib/helper.py");
    assert_eq!(files[0].data, b"def f():\n    return 1\n");
    assert_eq!(files[1].path, "data.txt");
    // Binary content is preserved byte-exact.
    assert_eq!(files[1].data, b"\x00\x01\xfftail");
}

#[test]
fn directory_entries_are_skipped() {
    let data = zip_of(&[
        ("docs", None),
        ("docs/readme.md", Some(b"hello".as_slice())),
    ]);
    let files = extract_archive(&encode(&data)).unwrap();
    assert_eq!(files.len(), 1);
    assert_eq!(files[0].path, "docs/readme.md");
}

#[test]
fn traversal_names_are_rejected() {
    let data = zip_of(&[("../evil.txt", Some(b"x".as_slice()))]);
    assert_eq!(extract_archive(&encode(&data)).err(), Some(EngineError::BadArchive));

    let data = zip_of(&[("nested/../../evil.txt", Some(b"x".as_slice()))]);
    assert_eq!(extract_archive(&encode(&data)).err(), Some(EngineError::BadArchive));
}

#[test]
fn absolute_names_are_rejected() {
    let data = zip_of(&[("/etc/hosts", Some(b"x".as_slice()))]);
    assert_eq!(extract_archive(&encode(&data)).err(), Some(EngineError::BadArchive));
}

#[test]
fn invalid_base64_is_rejected() {
    assert_eq!(
        extract_archive("@@@not-base64@@@").err(),
        Some(EngineError::BadArchive)
    );
}

#[test]
fn non_zip_bytes_are_rejected() {
    assert_eq!(
        extract_archive(&encode(b"just some text")).err(),
        Some(EngineError::BadArchive)
    );
}

#[test]
fn empty_archive_yields_no_files() {
    let data = zip_of(&[]);
    let files = extract_archive(&encode(&data)).unwrap();
    assert!(files.is_empty());
}

#[test]
fn prepare_carries_validated_archive_files() {
    let data = zip_of(&[("aux/input.dat", Some(b"12345".as_slice()))]);
    let req = ExecutionRequest {
        id: "arch".to_string(),
        language: "python".to_string(),
        language_id: None,
        source_code: "print(open('aux/input.dat').read())\n".to_string(),
        stdin: None,
        compiler_options: None,
        command_line_arguments: None,
        cpu_time_limit: None,
        cpu_extra_time: None,
        memory_limit: None,
        wall_time_limit: None,
        stack_limit: None,
        max_processes_and_or_threads: None,
        enable_per_process_and_thread_time_limit: None,
        enable_per_process_and_thread_memory_limit: None,
        max_file_size: None,
        redirect_stderr_to_stdout: None,
        enable_network: None,
        number_of_runs: None,
        callback_url: None,
        additional_files: Some(encode(&data)),
    };
    let plan = CodeExecutor::new().prepare(&req).unwrap();
    assert_eq!(plan.files.len(), 1);
    assert_eq!(plan.files[0].path, "aux/input.dat");
    assert_eq!(plan.files[0].data, b"12345");
}

#[test]
fn bad_archive_rejects_the_submission() {
    let req = ExecutionRequest {
        id: "bad".to_string(),
        language: "python".to_string(),
        language_id: None,
        source_code: "pass\n".to_string(),
        stdin: None,
        compiler_options: None,
        command_line_arguments: None,
        cpu_time_limit: None,
        cpu_extra_time: None,
        memory_limit: None,
        wall_time_limit: None,
        stack_limit: None,
        max_processes_and_or_threads: None,
        enable_per_process_and_thread_time_limit: None,
        enable_per_process_and_thread_memory_limit: None,
        max_file_size: None,
        redirect_stderr_to_stdout: None,
        enable_network: None,
        number_of_runs: None,
        callback_url: None,
        additional_files: Some("definitely not base64!!".to_string()),
    };
    let mut engine = ExecutionEngine::new(0);
    assert_eq!(engine.submit_execution(req, 1).err(), Some(EngineError::BadArchive));
}
