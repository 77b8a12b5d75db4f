#![allow(unused_imports, dead_code)]
use std::collections::VecDeque;
use std::io;
use std::sync::{Arc, Mutex};

use gh_client_backend::engine::command_registry::CommandRegistry;
use gh_client_backend::engine::error::ErrorCode;
use gh_client_backend::engine::executor::{CommandExecutor, RawExecutionOutput, Runner};
use gh_client_backend::engine::observability::TraceContext;
use gh_client_backend::engine::policy_guard::RepoPermission;

#[derive(Default)]
struct RecordingState {
    calls: Mutex<Vec<(String, Vec<String>)>>,
    responses: Mutex<VecDeque<RawExecutionOutput>>,
}

impl RecordingState {
    fn call_count(&self) -> usize {
        self.calls.lock().expect("lock poisoned").len()
    }

    fn last_call(&self) -> Option<(String, Vec<String>)> {
        self.calls.lock().expect("lock poisoned").last().cloned()
    }

        fn call_at(&self, index: usize) -> Option<(String, Vec<String>)> {
        self.calls.lock().expect("lock poisoned").get(index).cloned()
    }
}

#[derive(Clone)]
struct RecordingRunner {
    state: Arc<RecordingState>,
}

impl RecordingRunner {
    fn new(responses: Vec<RawExecutionOutput>) -> (Self, Arc<RecordingState>) {
        let state = Arc::new(RecordingState {
            calls: Mutex::new(Vec::new()),
            responses: Mutex::new(VecDeque::from(responses)),
        });
        (Self { state: Arc::clone(&state) }, state)
    }
}

impl Runner for RecordingRunner {
    fn run(&self, program: &str, args: &[String]) -> io::Result<RawExecutionOutput> {
        self.state
            .calls
            .lock()
            .expect("lock poisoned")
            .push((program.to_string(), args.to_vec()));
        let response = self
            .state
            .responses
            .lock()
            .expect("lock poisoned")
            .pop_front()
            .unwrap_or(RawExecutionOutput { exit_code: 0, stdout: String::new(), stderr: String::new() });
        Ok(response)
    }
}

fn output(exit_code: i32, stdout: &str, stderr: &str) -> RawExecutionOutput {
    RawExecutionOutput { exit_code, stdout: stdout.to_string(), stderr: stderr.to_string() }
}

fn empty_ok() -> RawExecutionOutput {
    output(0, "", "")
}

fn json(payload: &str) -> serde_json::Value {
    serde_json::from_str(payload).expect("payload should be JSON")
}

fn executor(runner: RecordingRunner, safe: bool) -> CommandExecutor<RecordingRunner> {
    CommandExecutor::new(runner, safe)
}

fn registry() -> CommandRegistry {
    CommandRegistry::with_defaults()
}

fn trace_for(request_id: &str) -> TraceContext {
    TraceContext::new(request_id)
}
use gh_client_backend::features::settings::command::SettingsCommandHandler;
use gh_client_backend::features::settings::dto::{BranchProtection, EnforceAdmins, RequiredPullRequestReviews};
use gh_client_backend::features::settings::service::{
    AddCollaboratorInput, AddDeployKeyInput, BranchProtectionTarget, CollaboratorPermission,
    CreateWebhookInput, DeleteDeployKeyInput, DeleteSecretInput, RemoveCollaboratorInput, SecretApp,
    SetSecretInput, SetVariableInput, SettingsService, UpdateBranchProtectionInput,
    WebhookContentType,
};

fn trace() -> TraceContext {
    TraceContext::new("req-settings-service")
}

fn service(runner: RecordingRunner, safe: bool) -> SettingsService<RecordingRunner> {
    SettingsService::new(CommandRegistry::with_defaults(), CommandExecutor::new(runner, safe))
}

/// The protection settings that a `get_branch_protection` payload reports.
fn protection_from(payload: &str) -> BranchProtection {
    let value = json(payload);
    let reviews = value.get("required_pull_request_reviews").filter(|v| !v.is_null()).map(|r| {
        RequiredPullRequestReviews {
            required_approving_review_count: r
                .get("required_approving_review_count")
                .and_then(|v| v.as_u64())
                .map(|v| v as u8),
            dismiss_stale_reviews: r.get("dismiss_stale_reviews").and_then(|v| v.as_bool()),
            require_code_owner_reviews: r.get("require_code_owner_reviews").and_then(|v| v.as_bool()),
        }
    });
    let enforce = value
        .get("enforce_admins")
        .filter(|v| !v.is_null())
        .map(|e| EnforceAdmins { enabled: e.get("enabled").and_then(|v| v.as_bool()) });
    BranchProtection {
        url: value.get("url").and_then(|v| v.as_str()).map(|v| v.to_string()),
        required_pull_request_reviews: reviews,
        enforce_admins: enforce,
    }
}

#[test]
fn list_collaborators_requires_admin_permission() {
    let (runner, state) = RecordingRunner::new(vec![empty_ok()]);
    let service = service(runner, false);

    let err = service
        .list_collaborators(RepoPermission::Write, "octocat", "hello", &trace())
        .expect_err("write permission should be denied");

    assert_eq!(err.code, ErrorCode::PermissionDenied);
    assert_eq!(state.call_count(), 0);
}

#[test]
fn list_collaborators_executes_command() {
    let (runner, state) = RecordingRunner::new(vec![output(
        0,
        r#"[{"login":"octocat","permissions":{"admin":true,"push":true,"pull":true}}]"#,
        "",
    )]);
    let service = service(runner, false);

    let items = service
        .list_collaborators(RepoPermission::Admin, "octocat", "hello", &trace())
        .expect("list should succeed");
    assert_eq!(json(&items).as_array().expect("list").len(), 1);

    let (program, args) = state.last_call().expect("command should be called");
    assert_eq!(program, "gh");
    assert_eq!(args[0], "api");
    assert_eq!(args, vec!["api", "repos/octocat/hello/collaborators"]);
}

#[test]
fn add_collaborator_executes_command() {
    let (runner, state) = RecordingRunner::new(vec![empty_ok()]);
    let service = service(runner, false);

    let input = AddCollaboratorInput {
        owner: "octocat".into(),
        repo: "hello".into(),
        username: "hubot".into(),
        permission: CollaboratorPermission::Push,
    };

    service
        .add_collaborator(RepoPermission::Admin, &input, &trace())
        .expect("add collaborator should succeed");

    let (_program, args) = state.last_call().expect("command should be called");
    assert!(args.contains(&"permission=push".to_string()));
    assert!(args.contains(&"repos/octocat/hello/collaborators/hubot".to_string()));
}

#[test]
fn add_collaborator_requires_username() {
    let (runner, state) = RecordingRunner::new(vec![]);
    let service = service(runner, false);
    let input = AddCollaboratorInput {
        owner: "octocat".into(),
        repo: "hello".into(),
        username: " ".into(),
        permission: CollaboratorPermission::Admin,
    };
    let err = service
        .add_collaborator(RepoPermission::Admin, &input, &trace())
        .expect_err("blank username must fail");
    assert_eq!(err.code, ErrorCode::ValidationError);
    assert_eq!(err.message, "username is required");
    assert_eq!(state.call_count(), 0);
}

#[test]
fn remove_collaborator_is_noop_in_safe_test_mode() {
    let (runner, state) = RecordingRunner::new(vec![empty_ok()]);
    let service = service(runner, true);

    let input = RemoveCollaboratorInput {
        owner: "octocat".into(),
        repo: "hello".into(),
        username: "hubot".into(),
    };

    service
        .remove_collaborator(RepoPermission::Admin, &input, &trace())
        .expect("remove collaborator should no-op");

    assert_eq!(state.call_count(), 0);
}

#[test]
fn list_secrets_executes_command() {
    let (runner, state) = RecordingRunner::new(vec![output(
        0,
        r#"[{"name":"TOKEN","updatedAt":"2026-01-01T00:00:00Z","visibility":"private"}]"#,
        "",
    )]);
    let service = service(runner, false);

    let items = service
        .list_secrets(RepoPermission::Admin, "octocat", "hello", Some(SecretApp::Actions), &trace())
        .expect("list secrets should succeed");
    assert_eq!(json(&items).as_array().expect("list").len(), 1);

    let (_program, args) = state.last_call().expect("command should be called");
    assert!(args.contains(&"secret".to_string()));
    assert!(args.contains(&"--app".to_string()));
    assert!(args.contains(&"actions".to_string()));
}

#[test]
fn set_secret_executes_command() {
    let (runner, state) = RecordingRunner::new(vec![empty_ok()]);
    let service = service(runner, false);

    let input = SetSecretInput {
        owner: "octocat".into(),
        repo: "hello".into(),
        name: "API_TOKEN".into(),
        value: "secret-value".into(),
        app: Some(SecretApp::Actions),
    };

    service
        .set_secret(RepoPermission::Admin, &input, &trace())
        .expect("set secret should succeed");

    let (_program, args) = state.last_call().expect("command should be called");
    assert!(args.contains(&"API_TOKEN".to_string()));
    assert!(args.contains(&"--body".to_string()));
}

#[test]
fn delete_secret_is_noop_in_safe_test_mode() {
    let (runner, state) = RecordingRunner::new(vec![empty_ok()]);
    let service = service(runner, true);

    let input = DeleteSecretInput {
        owner: "octocat".into(),
        repo: "hello".into(),
        name: "API_TOKEN".into(),
        app: None,
    };

    service
        .delete_secret(RepoPermission::Admin, &input, &trace())
        .expect("delete secret should no-op");

    assert_eq!(state.call_count(), 0);
}

#[test]
fn list_variables_executes_command() {
    let (runner, state) = RecordingRunner::new(vec![output(
        0,
        r#"[{"name":"ENV","value":"prod","updatedAt":"2026-01-01T00:00:00Z","createdAt":"2026-01-01T00:00:00Z","visibility":"private"}]"#,
        "",
    )]);
    let service = service(runner, false);

    let items = service
        .list_variables(RepoPermission::Admin, "octocat", "hello", &trace())
        .expect("list variables should succeed");
    assert_eq!(json(&items).as_array().expect("list").len(), 1);

    let (_program, args) = state.last_call().expect("command should be called");
    assert!(args.contains(&"variable".to_string()));
}

#[test]
fn set_variable_executes_command() {
    let (runner, state) = RecordingRunner::new(vec![empty_ok()]);
    let service = service(runner, false);

    let input = SetVariableInput {
        owner: "octocat".into(),
        repo: "hello".into(),
        name: "APP_ENV".into(),
        value: "staging".into(),
    };

    service
        .set_variable(RepoPermission::Admin, &input, &trace())
        .expect("set variable should succeed");

    let (_program, args) = state.last_call().expect("command should be called");
    assert!(args.contains(&"APP_ENV".to_string()));
    assert!(args.contains(&"--body".to_string()));
}

#[test]
fn list_webhooks_executes_command() {
    let (runner, state) = RecordingRunner::new(vec![output(
        0,
        r#"[{"id":1,"name":"web","active":true,"events":["push"],"config":{"url":"https://example.com","content_type":"json"}}]"#,
        "",
    )]);
    let service = service(runner, false);

    let items = service
        .list_webhooks(RepoPermission::Admin, "octocat", "hello", &trace())
        .expect("list webhooks should succeed");
    assert_eq!(json(&items).as_array().expect("list").len(), 1);

    let (_program, args) = state.last_call().expect("command should be called");
    assert_eq!(args[0], "api");
    assert!(args[1].contains("/hooks"));
}

#[test]
fn create_webhook_executes_command() {
    let (runner, state) = RecordingRunner::new(vec![empty_ok()]);
    let service = service(runner, false);

    let input = CreateWebhookInput {
        owner: "octocat".into(),
        repo: "hello".into(),
        target_url: "https://example.com/hook".into(),
        events: vec!["push".into(), "pull_request".into()],
        active: true,
        content_type: WebhookContentType::Json,
        secret: Some("abc123".into()),
    };

    service
        .create_webhook(RepoPermission::Admin, &input, &trace())
        .expect("create webhook should succeed");

    let (_program, args) = state.last_call().expect("command should be called");
    assert!(args.contains(&"name=web".to_string()));
    assert!(args.contains(&"events[]=push".to_string()));
    assert!(args.contains(&"events[]=pull_request".to_string()));
    assert!(args.contains(&"config[secret]=abc123".to_string()));
    assert!(args.contains(&"active=true".to_string()));
}

#[test]
fn create_webhook_requires_events() {
    let (runner, state) = RecordingRunner::new(vec![]);
    let service = service(runner, false);
    let mut input = CreateWebhookInput {
        owner: "octocat".into(),
        repo: "hello".into(),
        target_url: "https://example.com/hook".into(),
        events: vec![],
        active: true,
        content_type: WebhookContentType::Form,
        secret: None,
    };
    let err = service.create_webhook(RepoPermission::Admin, &input, &trace()).expect_err("no events");
    assert_eq!(err.message, "events must contain at least one event");
    input.events = vec!["push".into(), " ".into()];
    let err = service.create_webhook(RepoPermission::Admin, &input, &trace()).expect_err("blank event");
    assert_eq!(err.message, "events must not contain empty values");
    assert_eq!(state.call_count(), 0);
}

#[test]
fn get_branch_protection_executes_command() {
    let (runner, state) = RecordingRunner::new(vec![output(
        0,
        r#"{"url":"https://example.com","required_pull_request_reviews":{"required_approving_review_count":1,"dismiss_stale_reviews":true,"require_code_owner_reviews":false},"enforce_admins":{"enabled":true}}"#,
        "",
    )]);
    let service = service(runner, false);

    let target = BranchProtectionTarget {
        owner: "octocat".into(),
        repo: "hello".into(),
        branch: "main".into(),
    };

    let payload = service
        .get_branch_protection(RepoPermission::Admin, &target, &trace())
        .expect("get branch protection should succeed");
    let protection = protection_from(&payload);
    assert_eq!(protection.enforce_admins.and_then(|value| value.enabled), Some(true));

    let (_program, args) = state.last_call().expect("command should be called");
    assert!(args[1].contains("/protection"));
}

#[test]
fn update_branch_protection_executes_get_then_put() {
    let get_output = output(
        0,
        r#"{"url":"https://example.com","required_pull_request_reviews":{"required_approving_review_count":1,"dismiss_stale_reviews":false,"require_code_owner_reviews":false},"enforce_admins":{"enabled":false}}"#,
        "",
    );
    let put_output = empty_ok();
    let (runner, state) = RecordingRunner::new(vec![get_output, put_output]);
    let service = service(runner, false);

    let input = UpdateBranchProtectionInput {
        owner: "octocat".into(),
        repo: "hello".into(),
        branch: "main".into(),
        enforce_admins: Some(true),
        dismiss_stale_reviews: Some(true),
        require_code_owner_reviews: Some(true),
        required_approving_review_count: Some(2),
    };
    let target = BranchProtectionTarget {
        owner: input.owner.clone(),
        repo: input.repo.clone(),
        branch: input.branch.clone(),
    };

    let payload = service
        .get_branch_protection(RepoPermission::Admin, &target, &trace())
        .expect("reading the current protection should succeed");
    let current = protection_from(&payload);
    service
        .update_branch_protection(RepoPermission::Admin, &input, &current, &trace())
        .expect("update branch protection should succeed");

    assert_eq!(state.call_count(), 2);
    let second_call = state.call_at(1).expect("update call should exist");
    assert!(second_call.1.contains(&"--method".to_string()));
    assert!(second_call.1.contains(&"PUT".to_string()));
    assert!(second_call.1.contains(&"enforce_admins=true".to_string()));
    assert!(second_call
        .1
        .contains(&"required_pull_request_reviews[required_approving_review_count]=2".to_string()));
}

#[test]
fn update_branch_protection_keeps_current_settings_not_given() {
    let (runner, state) = RecordingRunner::new(vec![empty_ok()]);
    let service = service(runner, false);
    let input = UpdateBranchProtectionInput {
        owner: "octocat".into(),
        repo: "hello".into(),
        branch: "main".into(),
        enforce_admins: None,
        dismiss_stale_reviews: Some(false),
        require_code_owner_reviews: None,
        required_approving_review_count: None,
    };
    let current = BranchProtection {
        url: None,
        required_pull_request_reviews: Some(RequiredPullRequestReviews {
            required_approving_review_count: Some(3),
            dismiss_stale_reviews: Some(true),
            require_code_owner_reviews: None,
        }),
        enforce_admins: Some(EnforceAdmins { enabled: Some(true) }),
    };
    service
        .update_branch_protection(RepoPermission::Admin, &input, &current, &trace())
        .expect("update should succeed");
    let (_program, args) = state.last_call().expect("command should be called");
    assert_eq!(
        args,
        vec![
            "api",
            "--method",
            "PUT",
            "repos/octocat/hello/branches/main/protection",
            "-F",
            "required_status_checks=null",
            "-F",
            "restrictions=null",
            "-F",
            "enforce_admins=true",
            "-F",
            "required_pull_request_reviews[dismiss_stale_reviews]=false",
            "-F",
            "required_pull_request_reviews[require_code_owner_reviews]=false",
            "-F",
            "required_pull_request_reviews[required_approving_review_count]=3",
        ]
    );
}

#[test]
fn update_branch_protection_rejects_too_many_reviews() {
    let (runner, state) = RecordingRunner::new(vec![]);
    let service = service(runner, false);
    let input = UpdateBranchProtectionInput {
        owner: "octocat".into(),
        repo: "hello".into(),
        branch: "main".into(),
        enforce_admins: None,
        dismiss_stale_reviews: None,
        require_code_owner_reviews: None,
        required_approving_review_count: Some(7),
    };
    let current = BranchProtection { url: None, required_pull_request_reviews: None, enforce_admins: None };
    let err = service
        .update_branch_protection(RepoPermission::Admin, &input, &current, &trace())
        .expect_err("seven reviews must fail");
    assert_eq!(err.message, "required_approving_review_count must be between 0 and 6");
    assert_eq!(state.call_count(), 0);
}

#[test]
fn list_deploy_keys_executes_command() {
    let (runner, state) = RecordingRunner::new(vec![output(
        0,
        r#"[{"id":1,"title":"ci","key":"ssh-rsa AAA","read_only":true}]"#,
        "",
    )]);
    let service = service(runner, false);

    let items = service
        .list_deploy_keys(RepoPermission::Admin, "octocat", "hello", &trace())
        .expect("list deploy keys should succeed");
    assert_eq!(json(&items).as_array().expect("list").len(), 1);

    let (_program, args) = state.last_call().expect("command should be called");
    assert!(args[1].contains("/keys"));
}

#[test]
fn add_deploy_key_executes_command() {
    let (runner, state) = RecordingRunner::new(vec![empty_ok()]);
    let service = service(runner, false);

    let input = AddDeployKeyInput {
        owner: "octocat".into(),
        repo: "hello".into(),
        title: "ci".into(),
        key: "ssh-rsa AAA".into(),
        read_only: true,
    };

    service
        .add_deploy_key(RepoPermission::Admin, &input, &trace())
        .expect("add deploy key should succeed");

    let (_program, args) = state.last_call().expect("command should be called");
    assert!(args.contains(&"title=ci".to_string()));
    assert!(args.contains(&"read_only=true".to_string()));
}

#[test]
fn delete_deploy_key_is_noop_in_safe_test_mode() {
    let (runner, state) = RecordingRunner::new(vec![empty_ok()]);
    let service = service(runner, true);

    let input = DeleteDeployKeyInput { owner: "octocat".into(), repo: "hello".into(), key_id: 1 };

    service
        .delete_deploy_key(RepoPermission::Admin, &input, &trace())
        .expect("delete deploy key should no-op");

    assert_eq!(state.call_count(), 0);
}

#[test]
fn list_dependabot_alerts_executes_command() {
    let (runner, state) = RecordingRunner::new(vec![output(
        0,
        r#"[{"number":1,"state":"open","dependency":{"package":{"name":"openssl","ecosystem":"npm"}}}]"#,
        "",
    )]);
    let service = service(runner, false);

    let items = service
        .list_dependabot_alerts(RepoPermission::Admin, "octocat", "hello", 50, &trace())
        .expect("list dependabot alerts should succeed");
    assert_eq!(json(&items).as_array().expect("list").len(), 1);

    let (_program, args) = state.last_call().expect("command should be called");
    assert!(args[1].contains("dependabot/alerts"));
    assert!(args[1].contains("per_page=50"));
}

#[test]
fn settings_handler_forwards_to_service() {
    let (runner, state) = RecordingRunner::new(vec![output(0, "[]", "")]);
    let handler = SettingsCommandHandler::new(service(runner, false));
    let payload = handler
        .list_webhooks("req-handler", RepoPermission::Admin, "octocat", "hello")
        .expect("list should succeed");
    assert_eq!(payload, "[]");
    assert_eq!(state.call_count(), 1);
}

fn protection_input(owner: &str, count: Option<u8>) -> UpdateBranchProtectionInput {
    UpdateBranchProtectionInput {
        owner: owner.into(),
        repo: "hello".into(),
        branch: "main".into(),
        enforce_admins: None,
        dismiss_stale_reviews: None,
        require_code_owner_reviews: None,
        required_approving_review_count: count,
    }
}

#[test]
fn protection_update_checks_come_before_any_call() {
    let (runner, state) = RecordingRunner::new(vec![]);
    let svc = service(runner, false);

    let denied = svc
        .check_branch_protection_update(RepoPermission::Write, &protection_input("", Some(9)))
        .expect_err("non-admin is refused");
    assert_eq!(denied.code, ErrorCode::PermissionDenied);

    let invalid = svc
        .check_branch_protection_update(RepoPermission::Admin, &protection_input("octocat", Some(9)))
        .expect_err("count above six is refused");
    assert_eq!(invalid.code, ErrorCode::ValidationError);

    let empty = svc
        .check_branch_protection_update(RepoPermission::Admin, &protection_input("octocat", None))
        .expect_err("an update without a field is refused");
    assert_eq!(empty.code, ErrorCode::ValidationError);

    svc.check_branch_protection_update(RepoPermission::Admin, &protection_input("octocat", Some(6)))
        .expect("a valid update passes");
    assert_eq!(state.call_count(), 0);
}
