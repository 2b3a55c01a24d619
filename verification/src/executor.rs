//! Per-run orchestration: turning a request into a concrete run plan, and
//! turning runner observations into results.
//!
//! A [`RunPlan`] says exactly what to materialize in a fresh working
//! directory (source file, auxiliary files, stdin file) and what to exec
//! (optional compile argv, then the run argv) under which limits. Executing
//! the plan is I/O and happens outside the library; the decisions — language
//! lookup, archive validation, the compile-failure cut, and classification
//! of the run — are verified here.

use vstd::prelude::*;
use vstd::string::StringExecFns;
use vstd::string::StringSliceAdditionalSpecFns;
use crate::archive::{
    archive_ok, base64_decoded, extract_archive, files_match, files_of, zip_parsed, ArchiveFile,
};
use crate::catalog::{lookup_spec, LanguageCatalog, LanguageConfig};
use crate::limits::{ExecutionOptions, ResourceLimits};
use crate::runner::{classify_run, classify_spec, CommandResult};
use crate::state::ExecutionState;
use crate::types::{EngineError, ExecutionRequest, ExecutionResult};

verus! {

/// The language tag of a request, as the catalog keys are matched: its
/// UTF-8 bytes.
pub open spec fn request_tag_bytes(request: ExecutionRequest) -> Seq<u8> {
    vstd::utf8::encode_utf8(request.language@)
}

/// The stdin the child gets: the request's stdin when present and
/// non-empty, else nothing.
pub open spec fn effective_stdin(request: ExecutionRequest) -> Option<Seq<char>> {
    match request.stdin {
        Some(s) => if s@.len() > 0 {
            Some(s@)
        } else {
            None
        },
        None => None,
    }
}

/// Everything one run materializes and executes.
#[derive(Debug)]
pub struct RunPlan {
    /// File name the source is written to, from the recipe.
    pub source_filename: String,
    /// The submitted source, written verbatim.
    pub source_code: String,
    /// Auxiliary files from the request's archive, already validated.
    pub files: Vec<ArchiveFile>,
    /// Contents of the stdin file, when the child gets stdin.
    pub stdin: Option<String>,
    /// The compile argv, for compiled languages.
    pub compile_argv: Option<Vec<String>>,
    /// The run argv; never empty.
    pub run_argv: Vec<String>,
    pub limits: ResourceLimits,
    pub options: ExecutionOptions,
}

/// The file name the stdin contents are written to in the working
/// directory.
pub fn input_file_name() -> (res: &'static str)
    ensures
        res@ == "input.txt"@,
{
    "input.txt"
}

fn clone_argv(v: &Vec<String>) -> (res: Vec<String>)
    ensures
        res@ == v@,
{
    let mut res: Vec<String> = Vec::new();
    let n = v.len();
    let mut i: usize = 0;
    while i < n
        invariant
            n == v@.len(),
            0 <= i <= n,
            res@.len() == i,
            forall|j: int| 0 <= j < i ==> res@[j] == v@[j],
        decreases n - i,
    {
        res.push(v[i].clone());
        i = i + 1;
    }
    proof {
        assert(res@ =~= v@);
    }
    res
}

/// The code executor: the language catalog together with the pure half of
/// run orchestration.
pub struct CodeExecutor {
    catalog: LanguageCatalog,
}

impl CodeExecutor {
    /// The recipes the executor knows.
    pub closed spec fn catalog_spec(&self) -> Seq<LanguageConfig> {
        self.catalog@
    }

    /// Every recipe is usable.
    pub open spec fn wf(&self) -> bool {
        forall|i: int| 0 <= i < self.catalog_spec().len() ==> (#[trigger] self.catalog_spec()[i]).wf()
    }

    /// An executor over the standard catalog.
    pub fn new() -> (res: Self)
        ensures
            res.wf(),
            res.catalog_spec().len() == 7,
            res.catalog_spec()[0].key@ == "python"@ && res.catalog_spec()[0].id == 71,
            res.catalog_spec()[1].key@ == "javascript"@ && res.catalog_spec()[1].id == 63,
            res.catalog_spec()[2].key@ == "cpp"@ && res.catalog_spec()[2].id == 54,
            res.catalog_spec()[3].key@ == "c"@ && res.catalog_spec()[3].id == 50,
            res.catalog_spec()[4].key@ == "java"@ && res.catalog_spec()[4].id == 62,
            res.catalog_spec()[5].key@ == "go"@ && res.catalog_spec()[5].id == 60,
            res.catalog_spec()[6].key@ == "rust"@ && res.catalog_spec()[6].id == 73,
    {
        CodeExecutor { catalog: LanguageCatalog::standard() }
    }

    /// The recipe a request resolves to, when one does.
    pub open spec fn lookup_of(&self, request: ExecutionRequest) -> Option<int> {
        lookup_spec(self.catalog_spec(), request_tag_bytes(request), request.language_id)
    }

    /// Build the plan for one run of a request.
    ///
    /// Rejects an empty source (`EmptySource`), a language that neither the
    /// tag nor the alias resolves (`UnsupportedLanguage`), and an auxiliary
    /// archive that does not decode or holds an unsafe entry (`BadArchive`).
    /// Otherwise the plan carries the recipe's file name and argvs, the
    /// source verbatim, the validated auxiliary files, the effective stdin,
    /// and the derived limits and options.
    pub fn prepare(&self, request: &ExecutionRequest) -> (res: Result<RunPlan, EngineError>)
        requires
            self.wf(),
        ensures
            match res {
                Ok(plan) => {
                    &&& request.source_code@.len() > 0
                    &&& self.lookup_of(*request) is Some
                    &&& {
                        let cfg = self.catalog_spec()[self.lookup_of(*request)->0];
                        &&& plan.source_filename@ == cfg.source_file@
                        &&& plan.source_code@ == request.source_code@
                        &&& (plan.compile_argv is Some <==> cfg.compile_cmd is Some)
                        &&& (cfg.compile_cmd is Some ==> plan.compile_argv->0@
                            == cfg.compile_cmd->0@)
                        &&& plan.run_argv@ == cfg.run_cmd@
                        &&& plan.run_argv@.len() > 0
                    }
                    &&& plan.limits == ResourceLimits::from_request_spec(*request)
                    &&& plan.options == ExecutionOptions::from_request_spec(*request)
                    &&& plan.limits.wf()
                    &&& plan.options.wf()
                    &&& (match effective_stdin(*request) {
                        Some(s) => plan.stdin is Some && plan.stdin->0@ == s,
                        None => plan.stdin is None,
                    })
                    &&& (match request.additional_files {
                        Some(enc) => archive_ok(enc@) && files_match(
                            plan.files@,
                            files_of(zip_parsed(base64_decoded(enc@)->0)->0),
                        ),
                        None => plan.files@.len() == 0,
                    })
                },
                Err(e) => {
                    &&& e.is_user_error()
                    &&& e != EngineError::DuplicateId
                    &&& (e == EngineError::EmptySource <==> request.source_code@.len() == 0)
                    &&& (request.source_code@.len() > 0 && self.lookup_of(*request) is None <==> e
                        == EngineError::UnsupportedLanguage)
                    &&& (e == EngineError::BadArchive <==> request.source_code@.len() > 0
                        && self.lookup_of(*request) is Some && (match request.additional_files {
                        Some(enc) => !archive_ok(enc@),
                        None => false,
                    }))
                },
            },
            request.source_code@.len() > 0 && self.lookup_of(*request) is Some && (match request
                .additional_files {
                Some(enc) => archive_ok(enc@),
                None => true,
            }) ==> res is Ok,
    {
        if request.source_code.as_str().is_empty() {
            return Err(EngineError::EmptySource);
        }
        let tag = request.language.as_str();
        proof {
            assert(tag.spec_bytes() == request_tag_bytes(*request));
        }
        let cfg = match self.catalog.lookup(tag, request.language_id) {
            Some(c) => c,
            None => {
                return Err(EngineError::UnsupportedLanguage);
            },
        };
        proof {
            let idx = self.lookup_of(*request)->0;
            assert(*cfg == self.catalog_spec()[idx]);
            assert(self.catalog_spec()[idx].wf());
        }
        let files: Vec<ArchiveFile> = match &request.additional_files {
            Some(enc) => match extract_archive(enc.as_str()) {
                Ok(fs) => fs,
                Err(e) => {
                    return Err(e);
                },
            },
            None => Vec::new(),
        };
        let stdin: Option<String> = match &request.stdin {
            Some(s) => if s.as_str().is_empty() {
                None
            } else {
                Some(s.clone())
            },
            None => None,
        };
        let compile_argv: Option<Vec<String>> = match &cfg.compile_cmd {
            Some(argv) => Some(clone_argv(argv)),
            None => None,
        };
        Ok(
            RunPlan {
                source_filename: cfg.source_file.clone(),
                source_code: request.source_code.clone(),
                files,
                stdin,
                compile_argv,
                run_argv: clone_argv(&cfg.run_cmd),
                limits: ResourceLimits::from_request(request),
                options: ExecutionOptions::from_request(request),
            },
        )
    }
}

/// The combined compile diagnostic: the compiler's stdout, a newline, and
/// its stderr.
pub open spec fn compile_output_spec(c: CommandResult) -> Seq<char> {
    c.stdout@ + "\n"@ + c.stderr@
}

/// A compile-failure result: terminal `CompilationError`, carrying the
/// compiler's output.
pub open spec fn compile_failure_spec(
    id: Seq<char>,
    c: CommandResult,
    created_at: u64,
    now: u64,
    res: ExecutionResult,
) -> bool {
    &&& res.id@ == id
    &&& res.status == ExecutionState::CompilationError
    &&& res.stdout is Some && res.stdout->0@ == c.stdout@
    &&& res.stderr is Some && res.stderr->0@ == c.stderr@
    &&& res.compile_output is Some && res.compile_output->0@ == compile_output_spec(c)
    &&& res.exit_code == Some(c.exit_code)
    &&& res.signal is None
    &&& res.time == Some(c.execution_time)
    &&& res.memory == Some(c.memory_usage)
    &&& res.created_at == created_at
    &&& res.finished_at == Some(now)
}

/// Judge the compile step. Returns the combined compile output and, exactly
/// when the compiler exited non-zero, the terminal `CompilationError`
/// result — in that case the program is not run.
pub fn after_compile(id: &String, compile: &CommandResult, created_at: u64, now: u64) -> (res: (
    String,
    Option<ExecutionResult>,
))
    ensures
        res.0@ == compile_output_spec(*compile),
        res.1 is Some <==> compile.exit_code != 0,
        res.1 is Some ==> compile_failure_spec(id@, *compile, created_at, now, res.1->0),
{
    let out = compile.stdout.clone().concat("\n").concat(compile.stderr.as_str());
    if compile.exit_code != 0 {
        let result = ExecutionResult {
            id: id.clone(),
            status: ExecutionState::CompilationError,
            stdout: Some(compile.stdout.clone()),
            stderr: Some(compile.stderr.clone()),
            compile_output: Some(out.clone()),
            exit_code: Some(compile.exit_code),
            signal: None,
            time: Some(compile.execution_time),
            memory: Some(compile.memory_usage),
            created_at,
            finished_at: Some(now),
        };
        (out, Some(result))
    } else {
        (out, None)
    }
}

/// The result of one run of the program, classified from the runner's
/// observation.
pub fn run_result_of(
    id: &String,
    compile_output: Option<String>,
    run: &CommandResult,
    created_at: u64,
    now: u64,
) -> (res: ExecutionResult)
    ensures
        res.id@ == id@,
        res.status == classify_spec(run.exit_code, run.timed_out, run.memory_exceeded),
        res.stdout is Some && res.stdout->0@ == run.stdout@,
        res.stderr is Some && res.stderr->0@ == run.stderr@,
        res.compile_output == compile_output,
        res.exit_code == Some(run.exit_code),
        res.signal == run.signal,
        res.time == Some(run.execution_time),
        res.memory == Some(run.memory_usage),
        res.created_at == created_at,
        res.finished_at == Some(now),
{
    let status = classify_run(run);
    ExecutionResult {
        id: id.clone(),
        status,
        stdout: Some(run.stdout.clone()),
        stderr: Some(run.stderr.clone()),
        compile_output,
        exit_code: Some(run.exit_code),
        signal: run.signal.clone(),
        time: Some(run.execution_time),
        memory: Some(run.memory_usage),
        created_at,
        finished_at: Some(now),
    }
}

/// Whether the multi-run loop stops after this run: a non-zero exit code
/// when the options say to stop on the first failure.
pub fn should_stop_after(result: &ExecutionResult, options: &ExecutionOptions) -> (res: bool)
    ensures
        res == (options.stop_on_first_failure && result.exit_code.unwrap_or(0) != 0),
{
    let exit = match result.exit_code {
        Some(c) => c,
        None => 0,
    };
    options.stop_on_first_failure && exit != 0
}

} // verus!
