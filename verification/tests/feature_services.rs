#![allow(unused_imports, dead_code)]
use std::collections::VecDeque;
use std::io;
use std::sync::{Arc, Mutex};

use gh_client_backend::engine::command_registry::CommandRegistry;
use gh_client_backend::engine::error::ErrorCode;
use gh_client_backend::engine::executor::{CommandExecutor, RawExecutionOutput, Runner};
use gh_client_backend::engine::observability::TraceContext;
use gh_client_backend::engine::policy_guard::RepoPermission;

#[derive(Default)]
struct RecordingState {
    calls: Mutex<Vec<(String, Vec<String>)>>,
    responses: Mutex<VecDeque<RawExecutionOutput>>,
}

impl RecordingState {
    fn call_count(&self) -> usize {
        self.calls.lock().expect("lock poisoned").len()
    }

    fn last_call(&self) -> Option<(String, Vec<String>)> {
        self.calls.lock().expect("lock poisoned").last().cloned()
    }

        fn call_at(&self, index: usize) -> Option<(String, Vec<String>)> {
        self.calls.lock().expect("lock poisoned").get(index).cloned()
    }
}

#[derive(Clone)]
struct RecordingRunner {
    state: Arc<RecordingState>,
}

impl RecordingRunner {
    fn new(responses: Vec<RawExecutionOutput>) -> (Self, Arc<RecordingState>) {
        let state = Arc::new(RecordingState {
            calls: Mutex::new(Vec::new()),
            responses: Mutex::new(VecDeque::from(responses)),
        });
        (Self { state: Arc::clone(&state) }, state)
    }
}

impl Runner for RecordingRunner {
    fn run(&self, program: &str, args: &[String]) -> io::Result<RawExecutionOutput> {
        self.state
            .calls
            .lock()
            .expect("lock poisoned")
            .push((program.to_string(), args.to_vec()));
        let response = self
            .state
            .responses
            .lock()
            .expect("lock poisoned")
            .pop_front()
            .unwrap_or(RawExecutionOutput { exit_code: 0, stdout: String::new(), stderr: String::new() });
        Ok(response)
    }
}

fn output(exit_code: i32, stdout: &str, stderr: &str) -> RawExecutionOutput {
    RawExecutionOutput { exit_code, stdout: stdout.to_string(), stderr: stderr.to_string() }
}

fn empty_ok() -> RawExecutionOutput {
    output(0, "", "")
}

fn json(payload: &str) -> serde_json::Value {
    serde_json::from_str(payload).expect("payload should be JSON")
}

fn executor(runner: RecordingRunner, safe: bool) -> CommandExecutor<RecordingRunner> {
    CommandExecutor::new(runner, safe)
}

fn registry() -> CommandRegistry {
    CommandRegistry::with_defaults()
}

fn trace_for(request_id: &str) -> TraceContext {
    TraceContext::new(request_id)
}
use gh_client_backend::features::insights::service::InsightsService;
use gh_client_backend::features::pages::service::{ConfigurePagesInput, DeletePagesInput, PagesService};
use gh_client_backend::features::projects::service::{AddProjectItemInput, ProjectsService};
use gh_client_backend::features::rulesets::service::{
    DeleteRulesetInput, RulesetField, RulesetsService, UpsertRulesetInput,
};
use gh_client_backend::features::wiki::dto::wiki_info_from;
use gh_client_backend::features::wiki::service::{UpdateWikiInput, WikiService};

fn trace() -> TraceContext {
    TraceContext::new("req-feature-service")
}

#[test]
fn get_executes_command() {
    let (runner, state) = RecordingRunner::new(vec![output(
        0,
        r#"{"url":"https://api.github.com/repos/octocat/hello/pages","status":"built","html_url":"https://octocat.github.io/hello/","source":{"branch":"main","path":"/"}}"#,
        "",
    )]);
    let service = PagesService::new(CommandRegistry::with_defaults(), CommandExecutor::new(runner, false));

    let page = service.get("octocat", "hello", &trace()).expect("get should succeed");
    assert_eq!(json(&page)["status"].as_str(), Some("built"));

    let (_program, args) = state.last_call().expect("call should be recorded");
    assert_eq!(args[0], "api");
}

#[test]
fn service_create_requires_admin_permission() {
    let (runner, state) = RecordingRunner::new(vec![]);
    let service = PagesService::new(CommandRegistry::with_defaults(), CommandExecutor::new(runner, false));

    let input = ConfigurePagesInput {
        owner: "octocat".into(),
        repo: "hello".into(),
        branch: "main".into(),
        path: "/".into(),
        build_type: None,
        cname: None,
    };

    let err = service.create(RepoPermission::Write, &input, &trace()).expect_err("write should be denied");
    assert_eq!(err.code, ErrorCode::PermissionDenied);
    assert_eq!(state.call_count(), 0);
}

#[test]
fn pages_update_sends_optional_fields() {
    let (runner, state) = RecordingRunner::new(vec![output(0, "{}", "")]);
    let service = PagesService::new(CommandRegistry::with_defaults(), CommandExecutor::new(runner, false));
    let input = ConfigurePagesInput {
        owner: "octocat".into(),
        repo: "hello".into(),
        branch: "main".into(),
        path: "/docs".into(),
        build_type: Some("workflow".into()),
        cname: None,
    };
    service.update(RepoPermission::Admin, &input, &trace()).expect("update should succeed");
    let (_program, args) = state.last_call().expect("call should be recorded");
    assert_eq!(
        args,
        vec![
            "api",
            "--method",
            "PUT",
            "repos/octocat/hello/pages",
            "-F",
            "source[branch]=main",
            "-F",
            "source[path]=/docs",
            "-F",
            "build_type=workflow",
        ]
    );
}

#[test]
fn service_delete_is_noop_in_safe_test_mode() {
    let (runner, state) = RecordingRunner::new(vec![]);
    let service = PagesService::new(CommandRegistry::with_defaults(), CommandExecutor::new(runner, true));

    let input = DeletePagesInput { owner: "octocat".into(), repo: "hello".into() };

    service.delete(RepoPermission::Admin, &input, &trace()).expect("delete should no-op");
    assert_eq!(state.call_count(), 0);
}

#[test]
fn list_executes_projects_query() {
    let (runner, state) = RecordingRunner::new(vec![output(
        0,
        r#"{"data":{"repository":{"projectsV2":{"nodes":[{"id":"PVT_1","title":"Roadmap","url":"https://github.com/orgs/o/projects/1","closed":false}]}}}}"#,
        "",
    )]);
    let service = ProjectsService::new(CommandRegistry::with_defaults(), CommandExecutor::new(runner, false));

    let items = service.list("octocat", "hello", 10, &trace()).expect("list should succeed");
    let nodes = json(&items)["data"]["repository"]["projectsV2"]["nodes"].clone();
    assert_eq!(nodes.as_array().expect("nodes").len(), 1);

    let (_program, args) = state.last_call().expect("command should be called");
    assert!(args.contains(&"graphql".to_string()));
    assert!(args.iter().any(|value| value.contains("projectsV2")));
    assert!(args.contains(&"limit=10".to_string()));
}

#[test]
fn add_item_requires_write_permission() {
    let (runner, state) = RecordingRunner::new(vec![empty_ok()]);
    let service = ProjectsService::new(CommandRegistry::with_defaults(), CommandExecutor::new(runner, false));

    let input = AddProjectItemInput { project_id: "PVT_1".into(), content_id: "PR_1".into() };

    let err = service.add_item(RepoPermission::Viewer, &input, &trace()).expect_err("viewer should be denied");
    assert_eq!(err.code, ErrorCode::PermissionDenied);
    assert_eq!(state.call_count(), 0);
}

#[test]
fn add_item_executes_mutation() {
    let (runner, state) = RecordingRunner::new(vec![output(
        0,
        r#"{"data":{"addProjectV2ItemById":{"item":{"id":"PVTI_1"}}}}"#,
        "",
    )]);
    let service = ProjectsService::new(CommandRegistry::with_defaults(), CommandExecutor::new(runner, false));

    let input = AddProjectItemInput { project_id: "PVT_1".into(), content_id: "PR_1".into() };

    let created = service.add_item(RepoPermission::Write, &input, &trace()).expect("add should succeed");
    assert_eq!(json(&created)["data"]["addProjectV2ItemById"]["item"]["id"].as_str(), Some("PVTI_1"));

    let (_program, args) = state.last_call().expect("command should be called");
    assert!(args.iter().any(|value| value.contains("addProjectV2ItemById")));
    assert!(args.contains(&"project_id=PVT_1".to_string()));
}

#[test]
fn list_executes_command() {
    let (runner, state) = RecordingRunner::new(vec![output(
        0,
        r#"[{"id":1,"name":"Protect main","target":"branch","enforcement":"active"}]"#,
        "",
    )]);
    let service = RulesetsService::new(CommandRegistry::with_defaults(), CommandExecutor::new(runner, false));

    let items = service.list(RepoPermission::Admin, "octocat", "hello", &trace()).expect("list should succeed");
    assert_eq!(json(&items).as_array().expect("list").len(), 1);

    let (_program, args) = state.last_call().expect("call should be recorded");
    assert_eq!(args[0], "api");
    assert_eq!(args[1], "repos/octocat/hello/rulesets");
}

#[test]
fn rulesets_create_requires_admin_permission() {
    let (runner, state) = RecordingRunner::new(vec![]);
    let service = RulesetsService::new(CommandRegistry::with_defaults(), CommandExecutor::new(runner, false));

    let input = UpsertRulesetInput {
        owner: "octocat".into(),
        repo: "hello".into(),
        fields: vec![RulesetField { key: "name".into(), value: "Protect main".into() }],
    };

    let err = service.create(RepoPermission::Write, &input, &trace()).expect_err("write should be denied");
    assert_eq!(err.code, ErrorCode::PermissionDenied);
    assert_eq!(state.call_count(), 0);
}

#[test]
fn rulesets_update_sends_fields_in_order() {
    let (runner, state) = RecordingRunner::new(vec![empty_ok()]);
    let service = RulesetsService::new(CommandRegistry::with_defaults(), CommandExecutor::new(runner, false));
    let input = UpsertRulesetInput {
        owner: "octocat".into(),
        repo: "hello".into(),
        fields: vec![
            RulesetField { key: "name".into(), value: "Protect main".into() },
            RulesetField { key: "enforcement".into(), value: "active".into() },
        ],
    };
    service.update(RepoPermission::Admin, &input, 42, &trace()).expect("update should succeed");
    let (_program, args) = state.last_call().expect("call should be recorded");
    assert_eq!(
        args,
        vec![
            "api",
            "--method",
            "PUT",
            "repos/octocat/hello/rulesets/42",
            "-f",
            "name=Protect main",
            "-f",
            "enforcement=active",
        ]
    );
    let err = service.update(RepoPermission::Admin, &input, 0, &trace()).expect_err("zero id must fail");
    assert_eq!(err.message, "ruleset_id must be greater than 0");
    let blank = UpsertRulesetInput {
        owner: "octocat".into(),
        repo: "hello".into(),
        fields: vec![RulesetField { key: "name".into(), value: " ".into() }],
    };
    let err = service.create(RepoPermission::Admin, &blank, &trace()).expect_err("blank value must fail");
    assert_eq!(err.message, "ruleset fields must have non-empty key and value");
}

#[test]
fn rulesets_delete_is_noop_in_safe_test_mode() {
    let (runner, state) = RecordingRunner::new(vec![]);
    let service = RulesetsService::new(CommandRegistry::with_defaults(), CommandExecutor::new(runner, true));

    let input = DeleteRulesetInput { owner: "octocat".into(), repo: "hello".into(), ruleset_id: 1 };

    service.delete(RepoPermission::Admin, &input, &trace()).expect("delete should no-op");
    assert_eq!(state.call_count(), 0);
}

#[test]
fn get_executes_wiki_query() {
    let (runner, state) = RecordingRunner::new(vec![output(
        0,
        r#"{"has_wiki":true,"html_url":"https://github.com/octocat/hello"}"#,
        "",
    )]);
    let service = WikiService::new(CommandRegistry::with_defaults(), CommandExecutor::new(runner, false));

    let payload = service.get("octocat", "hello", &trace()).expect("get should succeed");
    let value = json(&payload);
    let info = wiki_info_from(
        value["has_wiki"].as_bool().expect("flag"),
        value["html_url"].as_str().expect("url").to_string(),
    );
    assert!(info.has_wiki);
    assert_eq!(info.wiki_url, "https://github.com/octocat/hello/wiki");

    let (_program, args) = state.last_call().expect("call should be recorded");
    assert_eq!(args[0], "api");
    assert_eq!(args[1], "repos/octocat/hello");
}

#[test]
fn wiki_url_drops_trailing_slashes() {
    let info = wiki_info_from(false, "https://github.com/octocat/hello//".to_string());
    assert_eq!(info.wiki_url, "https://github.com/octocat/hello/wiki");
    assert_eq!(info.html_url, "https://github.com/octocat/hello//");
    assert!(!info.has_wiki);
}

#[test]
fn update_requires_admin_permission() {
    let (runner, state) = RecordingRunner::new(vec![]);
    let service = WikiService::new(CommandRegistry::with_defaults(), CommandExecutor::new(runner, false));

    let input = UpdateWikiInput { owner: "octocat".into(), repo: "hello".into(), enabled: false };

    let err = service.update(RepoPermission::Write, &input, &trace()).expect_err("write should be denied");
    assert_eq!(err.code, ErrorCode::PermissionDenied);
    assert_eq!(state.call_count(), 0);
}

#[test]
fn get_views_executes_command() {
    let (runner, state) = RecordingRunner::new(vec![output(
        0,
        r#"{"count":10,"uniques":5,"views":[{"timestamp":"2026-03-01T00:00:00Z","count":2,"uniques":1}]}"#,
        "",
    )]);
    let service = InsightsService::new(CommandRegistry::with_defaults(), CommandExecutor::new(runner, false));

    let result = service.get_views("octocat", "hello", &trace()).expect("views should succeed");
    assert_eq!(json(&result)["count"].as_u64(), Some(10));

    let (_program, args) = state.last_call().expect("call should be recorded");
    assert_eq!(args[1], "repos/octocat/hello/traffic/views");
}

#[test]
fn get_clones_executes_command() {
    let (runner, state) = RecordingRunner::new(vec![output(
        0,
        r#"{"count":3,"uniques":2,"clones":[{"timestamp":"2026-03-01T00:00:00Z","count":1,"uniques":1}]}"#,
        "",
    )]);
    let service = InsightsService::new(CommandRegistry::with_defaults(), CommandExecutor::new(runner, false));

    let result = service.get_clones("octocat", "hello", &trace()).expect("clones should succeed");
    assert_eq!(json(&result)["count"].as_u64(), Some(3));

    let (_program, args) = state.last_call().expect("call should be recorded");
    assert_eq!(args[1], "repos/octocat/hello/traffic/clones");
}

#[test]
fn traffic_requires_owner_and_repo() {
    let (runner, state) = RecordingRunner::new(vec![]);
    let service = InsightsService::new(CommandRegistry::with_defaults(), CommandExecutor::new(runner, false));
    let err = service.get_views("", "hello", &trace()).expect_err("blank owner must fail");
    assert_eq!(err.code, ErrorCode::ValidationError);
    assert_eq!(err.message, "owner and repo are required");
    assert_eq!(state.call_count(), 0);
}
