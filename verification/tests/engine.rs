#![allow(unused_imports, dead_code)]
use std::collections::VecDeque;
use std::io;
use std::sync::{Arc, Mutex};

use gh_client_backend::engine::command_registry::CommandRegistry;
use gh_client_backend::engine::error::ErrorCode;
use gh_client_backend::engine::executor::{CommandExecutor, RawExecutionOutput, Runner};
use gh_client_backend::engine::observability::TraceContext;
use gh_client_backend::engine::policy_guard::RepoPermission;

#[derive(Default)]
struct RecordingState {
    calls: Mutex<Vec<(String, Vec<String>)>>,
    responses: Mutex<VecDeque<RawExecutionOutput>>,
}

impl RecordingState {
    fn call_count(&self) -> usize {
        self.calls.lock().expect("lock poisoned").len()
    }

    fn last_call(&self) -> Option<(String, Vec<String>)> {
        self.calls.lock().expect("lock poisoned").last().cloned()
    }

        fn call_at(&self, index: usize) -> Option<(String, Vec<String>)> {
        self.calls.lock().expect("lock poisoned").get(index).cloned()
    }
}

#[derive(Clone)]
struct RecordingRunner {
    state: Arc<RecordingState>,
}

impl RecordingRunner {
    fn new(responses: Vec<RawExecutionOutput>) -> (Self, Arc<RecordingState>) {
        let state = Arc::new(RecordingState {
            calls: Mutex::new(Vec::new()),
            responses: Mutex::new(VecDeque::from(responses)),
        });
        (Self { state: Arc::clone(&state) }, state)
    }
}

impl Runner for RecordingRunner {
    fn run(&self, program: &str, args: &[String]) -> io::Result<RawExecutionOutput> {
        self.state
            .calls
            .lock()
            .expect("lock poisoned")
            .push((program.to_string(), args.to_vec()));
        let response = self
            .state
            .responses
            .lock()
            .expect("lock poisoned")
            .pop_front()
            .unwrap_or(RawExecutionOutput { exit_code: 0, stdout: String::new(), stderr: String::new() });
        Ok(response)
    }
}

fn output(exit_code: i32, stdout: &str, stderr: &str) -> RawExecutionOutput {
    RawExecutionOutput { exit_code, stdout: stdout.to_string(), stderr: stderr.to_string() }
}

fn empty_ok() -> RawExecutionOutput {
    output(0, "", "")
}

fn json(payload: &str) -> serde_json::Value {
    serde_json::from_str(payload).expect("payload should be JSON")
}

fn executor(runner: RecordingRunner, safe: bool) -> CommandExecutor<RecordingRunner> {
    CommandExecutor::new(runner, safe)
}

fn registry() -> CommandRegistry {
    CommandRegistry::with_defaults()
}

fn trace_for(request_id: &str) -> TraceContext {
    TraceContext::new(request_id)
}
use gh_client_backend::app_ipc::{error_code_string, FrontendInvokeError};
use gh_client_backend::contract::stable_command_ids;
use gh_client_backend::engine::command_registry::CommandRequest;
use gh_client_backend::engine::error::AppError;
use gh_client_backend::engine::executor::{
    backoff_delay, classify_process_error, saturating_mul, should_retry, ExecutorOptions,
};
use gh_client_backend::engine::permission_resolver::{
    permission_from_flags, RepoPermissionFlags, RepoPermissionResolver,
};
use gh_client_backend::frontend::FrontendDispatcher;

#[test]
fn supported_commands_match_stable_contract() {
    let mut dispatch_ids = FrontendDispatcher::<RecordingRunner>::supported_command_ids().to_vec();
    let mut stable_ids = stable_command_ids().to_vec();
    dispatch_ids.sort_unstable();
    stable_ids.sort_unstable();
    assert_eq!(dispatch_ids, stable_ids);
}

#[test]
fn dispatcher_hands_out_services_over_default_registry() {
    let (runner, state) = RecordingRunner::new(vec![output(
        0,
        "github.com\n  \u{2713} Logged in to github.com account octocat (keyring)\n  - Active account: true",
        "",
    )]);
    let dispatcher = FrontendDispatcher::new(runner, false).expect("dispatcher should initialize");
    let status = dispatcher.auth_service().status(&TraceContext::new("req-1")).expect("status should succeed");
    assert!(status.logged_in);
    assert_eq!(status.account.as_deref(), Some("octocat"));
    let (_program, args) = state.last_call().expect("command should be called");
    assert_eq!(args[0], "auth");
    assert_eq!(args[1], "status");
    assert!(dispatcher.registry().contains("repo.list"));
}

#[test]
fn executes_internal_raw_command() {
    let (runner, state) = RecordingRunner::new(vec![output(0, "{\"object\":{\"sha\":\"abc\"}}", "")]);
    let dispatcher = FrontendDispatcher::new(runner, false).expect("dispatcher should initialize");
    let out = dispatcher
        .execute_raw_command("repo.branch.ref.get", "req-raw", vec!["repos/octocat/hello/git/ref/heads/main".into()])
        .expect("raw command should succeed");
    assert_eq!(out.exit_code, 0);
    assert_eq!(out.stdout, "{\"object\":{\"sha\":\"abc\"}}");
    assert!(!out.noop);
    let (_program, args) = state.last_call().expect("command should be called");
    assert_eq!(args[0], "api");
}

#[test]
fn raw_destructive_command_is_skipped_in_safe_mode() {
    let (runner, state) = RecordingRunner::new(vec![]);
    let dispatcher = FrontendDispatcher::new(runner, true).expect("dispatcher should initialize");
    let out = dispatcher
        .execute_raw_command("repo.delete", "req-raw", vec!["octocat/hello".into(), "--yes".into()])
        .expect("skipped command succeeds");
    assert!(out.noop);
    assert_eq!(out.exit_code, 0);
    assert!(out.stdout.is_empty());
    assert_eq!(state.call_count(), 0);
}

#[test]
fn settings_through_dispatcher_need_admin() {
    let (runner, state) = RecordingRunner::new(vec![]);
    let dispatcher = FrontendDispatcher::new(runner, false).expect("dispatcher should initialize");
    let err = dispatcher
        .settings_service()
        .list_collaborators(RepoPermission::Viewer, "octocat", "hello", &TraceContext::new("req-2"))
        .expect_err("viewer is denied");
    assert_eq!(error_code_string(err.code), "permission_denied");
    assert_eq!(state.call_count(), 0);
}

#[test]
fn invoke_error_carries_request_and_command() {
    let err = AppError::validation("bad input");
    let fingerprint = err.fingerprint.clone();
    let invoke = FrontendInvokeError::from_app_error(err, "req-9".to_string(), "repo.list".to_string());
    assert_eq!(invoke.code, "validation_error");
    assert_eq!(invoke.message, "bad input");
    assert!(!invoke.retryable);
    assert_eq!(invoke.fingerprint, fingerprint);
    assert_eq!(invoke.request_id, "req-9");
    assert_eq!(invoke.command_id, "repo.list");
    assert_eq!(error_code_string(ErrorCode::AuthRequired), "auth_required");
    assert_eq!(error_code_string(ErrorCode::NetworkError), "network_error");
}

#[test]
fn permission_flags_grant_levels() {
    let none = RepoPermissionFlags::default();
    assert_eq!(permission_from_flags(&none), RepoPermission::Viewer);
    let maintain = RepoPermissionFlags { maintain: Some(true), ..RepoPermissionFlags::default() };
    assert_eq!(permission_from_flags(&maintain), RepoPermission::Admin);
    let triage = RepoPermissionFlags { triage: Some(true), admin: Some(false), ..RepoPermissionFlags::default() };
    assert_eq!(permission_from_flags(&triage), RepoPermission::Write);
    let pull = RepoPermissionFlags { pull: Some(true), ..RepoPermissionFlags::default() };
    assert_eq!(permission_from_flags(&pull), RepoPermission::Viewer);
}

#[test]
fn resolver_reads_permissions_of_repository() {
    let (runner, state) = RecordingRunner::new(vec![output(0, "{\"admin\":false,\"push\":true}\n", "")]);
    let resolver = RepoPermissionResolver::new(CommandExecutor::new(runner, false));
    let level = resolver.resolve("octocat", "hello", &TraceContext::new("req-3")).expect("resolve should succeed");
    assert_eq!(level, RepoPermission::Write);
    let (program, args) = state.last_call().expect("command should be called");
    assert_eq!(program, "gh");
    assert_eq!(args, vec!["api", "repos/octocat/hello", "--jq", ".permissions"]);
    let err = resolver.resolve("octocat", " ", &TraceContext::new("req-4")).expect_err("blank repo must fail");
    assert_eq!(err.message, "owner and repo are required");
    let request: CommandRequest = RepoPermissionResolver::<RecordingRunner>::request_for("o", "r");
    assert_eq!(request.command_id, "internal.repo_permission.get");
}

#[test]
fn failed_command_is_classified_from_its_output() {
    let auth = classify_process_error("repo.list", 1, "To get started with GitHub CLI, please run: gh auth login", "");
    assert_eq!(auth.code, ErrorCode::AuthRequired);
    assert!(!auth.retryable);
    let missing = classify_process_error("repo.view", 1, "HTTP 404: Not Found", "");
    assert_eq!(missing.code, ErrorCode::NotFound);
    let other = classify_process_error("repo.view", 2, " boom ", "");
    assert_eq!(other.code, ErrorCode::ExecutionError);
    assert_eq!(other.message, "command `repo.view` failed with exit code 2 (stderr: boom)");
}

#[test]
fn auth_failure_reaches_caller_as_auth_required() {
    let (runner, state) = RecordingRunner::new(vec![output(
        1,
        "",
        "To get started with GitHub CLI, please run: gh auth login",
    )]);
    let dispatcher = FrontendDispatcher::new(runner, false).expect("dispatcher should initialize");
    let err = dispatcher
        .repositories_service()
        .list("octocat", 20, &TraceContext::new("req-5"))
        .expect_err("must fail");
    assert_eq!(error_code_string(err.code), "auth_required");
    assert_eq!(state.call_count(), 1);
}

#[test]
fn retries_follow_the_retry_rule() {
    let retryable = AppError::execution("transient");
    assert!(should_retry(&retryable, 0, 2));
    assert!(should_retry(&retryable, 1, 2));
    assert!(!should_retry(&retryable, 2, 2));
    let permanent = AppError::validation("bad");
    assert!(!should_retry(&permanent, 0, 2));
}

#[test]
fn backoff_doubles_and_saturates() {
    assert_eq!(backoff_delay(150, 0), 150);
    assert_eq!(backoff_delay(150, 1), 300);
    assert_eq!(backoff_delay(150, 3), 1200);
    assert_eq!(backoff_delay(u64::MAX, 1), u64::MAX);
    assert_eq!(backoff_delay(1, 64), u64::MAX);
    assert_eq!(saturating_mul(3, 4), 12);
    assert_eq!(saturating_mul(u64::MAX, 2), u64::MAX);
    let options = ExecutorOptions::default();
    assert_eq!(options.max_retries, 2);
    assert_eq!(options.initial_backoff_ms, 150);
}

#[test]
fn retryable_failures_are_run_again() {
    let (runner, state) = RecordingRunner::new(vec![
        output(1, "", "HTTP 502: Bad Gateway"),
        output(0, "[]", ""),
    ]);
    let dispatcher = FrontendDispatcher::new(runner, false).expect("dispatcher should initialize");
    let payload = dispatcher
        .issues_service()
        .list("octocat", "hello", 5, &TraceContext::new("req-6"))
        .expect("second attempt succeeds");
    assert_eq!(payload, "[]");
    assert_eq!(state.call_count(), 2);
}
