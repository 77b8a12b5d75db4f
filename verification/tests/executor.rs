use std::collections::VecDeque;
use std::io;
use std::sync::atomic::{AtomicUsize, Ordering};
use std::sync::{Arc, Mutex};

use gh_client_backend::engine::command_registry::{CommandRequest, CommandSafety};
use gh_client_backend::engine::error::ErrorCode;
use gh_client_backend::engine::executor::{
    CommandExecutor, ExecutorOptions, RawExecutionOutput, Runner,
};
use gh_client_backend::engine::observability::TraceContext;
use gh_client_backend::engine::permission_resolver::{
    flags_from_output, RepoPermissionFlags, RepoPermissionResolver,
};
use gh_client_backend::engine::policy_guard::RepoPermission;

enum Step {
    Output(RawExecutionOutput),
    IoError(&'static str),
}

struct SequenceRunner {
    calls: AtomicUsize,
    steps: Mutex<VecDeque<Step>>,
}

impl SequenceRunner {
    fn new(steps: Vec<Step>) -> Self {
        Self { calls: AtomicUsize::new(0), steps: Mutex::new(VecDeque::from(steps)) }
    }

    fn call_count(&self) -> usize {
        self.calls.load(Ordering::SeqCst)
    }
}

impl Runner for SequenceRunner {
    fn run(&self, _program: &str, _args: &[String]) -> io::Result<RawExecutionOutput> {
        self.calls.fetch_add(1, Ordering::SeqCst);
        let step = self.steps.lock().expect("lock poisoned").pop_front().unwrap_or(
            Step::Output(RawExecutionOutput {
                exit_code: 0,
                stdout: String::new(),
                stderr: String::new(),
            }),
        );
        match step {
            Step::Output(output) => Ok(output),
            Step::IoError(message) => Err(io::Error::other(message)),
        }
    }
}

fn trace() -> TraceContext {
    TraceContext::new("req-test")
}

fn destructive_request() -> CommandRequest {
    CommandRequest {
        command_id: "repo.delete".into(),
        program: "gh".into(),
        args: vec!["repo".into(), "delete".into()],
        safety: CommandSafety::Destructive,
    }
}

fn non_destructive_request() -> CommandRequest {
    CommandRequest {
        command_id: "repo.list".into(),
        program: "gh".into(),
        args: vec!["repo".into(), "list".into()],
        safety: CommandSafety::NonDestructive,
    }
}

fn failing(stderr: &str) -> Step {
    Step::Output(RawExecutionOutput { exit_code: 1, stdout: String::new(), stderr: stderr.into() })
}

fn succeeding(stdout: &str) -> Step {
    Step::Output(RawExecutionOutput { exit_code: 0, stdout: stdout.into(), stderr: String::new() })
}

fn options(max_retries: u8) -> ExecutorOptions {
    ExecutorOptions { max_retries, initial_backoff_ms: 1 }
}

#[test]
fn safe_test_mode_skips_destructive_command() {
    let runner = SequenceRunner::new(vec![]);
    let executor = CommandExecutor::new(runner, true);
    let (output, audit) = executor
        .execute(&destructive_request(), &trace())
        .expect("safe test mode should return success");
    assert!(output.noop);
    assert_eq!(audit.command_id, "repo.delete");
    assert!(audit.noop);
    assert_eq!(executor.runner().call_count(), 0);
}

#[test]
fn non_destructive_command_executes_even_in_safe_mode() {
    let runner = SequenceRunner::new(vec![succeeding("ok")]);
    let executor = CommandExecutor::new(runner, true);
    let (output, _audit) = executor
        .execute(&non_destructive_request(), &trace())
        .expect("non destructive should execute");
    assert!(!output.noop);
    assert_eq!(executor.runner().call_count(), 1);
}

#[test]
fn classifies_rate_limit_errors() {
    let runner = SequenceRunner::new(vec![failing("API rate limit exceeded for user")]);
    let executor = CommandExecutor::with_options(runner, false, options(0));
    let err = executor
        .execute(&non_destructive_request(), &trace())
        .expect_err("rate limited command must fail");
    assert_eq!(err.code, ErrorCode::RateLimited);
    assert!(err.retryable);
}

#[test]
fn classifies_auth_errors() {
    let runner = SequenceRunner::new(vec![failing("run gh auth login to authenticate")]);
    let executor = CommandExecutor::with_options(runner, false, options(0));
    let err = executor
        .execute(&non_destructive_request(), &trace())
        .expect_err("auth command must fail");
    assert_eq!(err.code, ErrorCode::AuthRequired);
    assert!(!err.retryable);
}

#[test]
fn retries_on_network_error_then_succeeds() {
    let runner =
        SequenceRunner::new(vec![failing("connection reset by peer"), succeeding("ok")]);
    let executor = CommandExecutor::with_options(runner, false, options(1));
    let (output, _audit) = executor
        .execute(&non_destructive_request(), &trace())
        .expect("network retry should succeed");
    assert_eq!(output.stdout, "ok");
    assert_eq!(executor.runner().call_count(), 2);
}

#[test]
fn does_not_retry_on_permission_denied() {
    let runner = SequenceRunner::new(vec![failing("HTTP 403 Forbidden"), succeeding("ok")]);
    let executor = CommandExecutor::with_options(runner, false, options(2));
    let err = executor
        .execute(&non_destructive_request(), &trace())
        .expect_err("permission denied should fail immediately");
    assert_eq!(err.code, ErrorCode::PermissionDenied);
    assert_eq!(executor.runner().call_count(), 1);
}

#[test]
fn retries_on_spawn_error_then_succeeds() {
    let runner =
        SequenceRunner::new(vec![Step::IoError("temporary spawn failure"), succeeding("ok")]);
    let executor = CommandExecutor::with_options(runner, false, options(1));
    let (output, _audit) = executor
        .execute(&non_destructive_request(), &trace())
        .expect("spawn retry should succeed");
    assert_eq!(output.stdout, "ok");
    assert_eq!(executor.runner().call_count(), 2);
}

#[test]
fn returns_error_on_non_zero_exit_code() {
    let runner = SequenceRunner::new(vec![failing("boom")]);
    let executor = CommandExecutor::with_options(runner, false, options(0));
    let err = executor
        .execute(&non_destructive_request(), &trace())
        .expect_err("non-zero exit must fail");
    assert_eq!(err.code, ErrorCode::ExecutionError);
    assert!(err.message.contains("exit code 1"));
}

#[test]
fn successful_execution_contains_audit_event() {
    let runner = SequenceRunner::new(vec![succeeding("ok")]);
    let executor = CommandExecutor::new(runner, false);
    let (output, audit) =
        executor.execute(&non_destructive_request(), &trace()).expect("success expected");
    assert_eq!(output.stdout, "ok");
    assert_eq!(audit.command_id, "repo.list");
    assert_eq!(audit.exit_code, 0);
}

#[test]
fn retries_stop_after_the_last_allowed_attempt() {
    let runner = SequenceRunner::new(vec![
        failing("connection reset by peer"),
        failing("connection reset by peer"),
        succeeding("ok"),
    ]);
    let executor = CommandExecutor::with_options(runner, false, options(1));
    let err = executor
        .execute(&non_destructive_request(), &trace())
        .expect_err("retries are exhausted");
    assert_eq!(err.code, ErrorCode::NetworkError);
    assert_eq!(executor.runner().call_count(), 2);
}

#[derive(Default)]
struct RecordingState {
    calls: Mutex<Vec<(String, Vec<String>)>>,
    responses: Mutex<VecDeque<RawExecutionOutput>>,
}

#[derive(Clone)]
struct RecordingRunner {
    state: Arc<RecordingState>,
}

impl Runner for RecordingRunner {
    fn run(&self, program: &str, args: &[String]) -> io::Result<RawExecutionOutput> {
        self.state.calls.lock().expect("lock poisoned").push((program.to_string(), args.to_vec()));
        Ok(self.state.responses.lock().expect("lock poisoned").pop_front().unwrap_or(
            RawExecutionOutput { exit_code: 0, stdout: "{}".into(), stderr: String::new() },
        ))
    }
}

fn recording(responses: Vec<RawExecutionOutput>) -> (RecordingRunner, Arc<RecordingState>) {
    let state = Arc::new(RecordingState {
        calls: Mutex::new(Vec::new()),
        responses: Mutex::new(VecDeque::from(responses)),
    });
    (RecordingRunner { state: Arc::clone(&state) }, state)
}

#[test]
fn resolves_admin_permission_from_repo_api() {
    let (runner, state) = recording(vec![RawExecutionOutput {
        exit_code: 0,
        stdout: r#"{"admin":true,"maintain":false,"push":true,"triage":true,"pull":true}"#.into(),
        stderr: String::new(),
    }]);
    let resolver = RepoPermissionResolver::new(CommandExecutor::new(runner, false));
    let permission =
        resolver.resolve("octocat", "hello", &trace()).expect("permission lookup should succeed");
    assert_eq!(permission, RepoPermission::Admin);
    let (_program, args) =
        state.calls.lock().expect("lock poisoned").last().cloned().expect("command recorded");
    assert!(args.iter().any(|arg| arg == "repos/octocat/hello"));
    assert!(args.iter().any(|arg| arg == "--jq"));
}

#[test]
fn defaults_to_viewer_when_permissions_are_missing() {
    let (runner, _state) = recording(vec![RawExecutionOutput {
        exit_code: 0,
        stdout: "null".into(),
        stderr: String::new(),
    }]);
    let resolver = RepoPermissionResolver::new(CommandExecutor::new(runner, false));
    let permission =
        resolver.resolve("octocat", "hello", &trace()).expect("permission lookup should succeed");
    assert_eq!(permission, RepoPermission::Viewer);
}

#[test]
fn resolver_refuses_blank_owner_without_running() {
    let (runner, state) = recording(vec![]);
    let resolver = RepoPermissionResolver::new(CommandExecutor::new(runner, false));
    let err = resolver.resolve("  ", "hello", &trace()).expect_err("blank owner is refused");
    assert_eq!(err.code, ErrorCode::ValidationError);
    assert_eq!(err.message, "owner and repo are required");
    assert!(state.calls.lock().expect("lock poisoned").is_empty());
}

#[test]
fn permission_flags_are_read_from_the_output() {
    let flags = flags_from_output(" {\"admin\":null,\"push\":true,\"extra\":1}\n");
    assert_eq!(
        flags,
        RepoPermissionFlags { admin: None, maintain: None, push: Some(true), triage: None, pull: None }
    );
    assert_eq!(flags_from_output("{\"admin\":\"yes\"}"), RepoPermissionFlags::default());
    assert_eq!(flags_from_output("not json"), RepoPermissionFlags::default());
    assert_eq!(flags_from_output("[true]"), RepoPermissionFlags::default());
    assert_eq!(
        flags_from_output("[false, null, true, false, true]"),
        RepoPermissionFlags {
            admin: Some(false),
            maintain: None,
            push: Some(true),
            triage: Some(false),
            pull: Some(true),
        }
    );
    assert_eq!(flags_from_output("[true, true, true, true, 1]"), RepoPermissionFlags::default());
}

#[test]
fn default_executor_runs_a_failing_command_three_times() {
    let runner = SequenceRunner::new(vec![
        failing("connection reset"),
        failing("connection reset"),
        failing("connection reset"),
        succeeding("never reached"),
    ]);
    let executor = CommandExecutor::new(runner, true);
    let err = executor
        .execute(&non_destructive_request(), &trace())
        .expect_err("every attempt fails");
    assert!(err.retryable);
    assert_eq!(err.code, ErrorCode::NetworkError);
    assert_eq!(executor.runner().call_count(), 3);
}
