#![allow(unused_imports, dead_code)]
use std::collections::VecDeque;
use std::io;
use std::sync::{Arc, Mutex};

use gh_client_backend::engine::command_registry::CommandRegistry;
use gh_client_backend::engine::error::ErrorCode;
use gh_client_backend::engine::executor::{CommandExecutor, RawExecutionOutput, Runner};
use gh_client_backend::engine::observability::TraceContext;
use gh_client_backend::engine::policy_guard::RepoPermission;

#[derive(Default)]
struct RecordingState {
    calls: Mutex<Vec<(String, Vec<String>)>>,
    responses: Mutex<VecDeque<RawExecutionOutput>>,
}

impl RecordingState {
    fn call_count(&self) -> usize {
        self.calls.lock().expect("lock poisoned").len()
    }

    fn last_call(&self) -> Option<(String, Vec<String>)> {
        self.calls.lock().expect("lock poisoned").last().cloned()
    }

        fn call_at(&self, index: usize) -> Option<(String, Vec<String>)> {
        self.calls.lock().expect("lock poisoned").get(index).cloned()
    }
}

#[derive(Clone)]
struct RecordingRunner {
    state: Arc<RecordingState>,
}

impl RecordingRunner {
    fn new(responses: Vec<RawExecutionOutput>) -> (Self, Arc<RecordingState>) {
        let state = Arc::new(RecordingState {
            calls: Mutex::new(Vec::new()),
            responses: Mutex::new(VecDeque::from(responses)),
        });
        (Self { state: Arc::clone(&state) }, state)
    }
}

impl Runner for RecordingRunner {
    fn run(&self, program: &str, args: &[String]) -> io::Result<RawExecutionOutput> {
        self.state
            .calls
            .lock()
            .expect("lock poisoned")
            .push((program.to_string(), args.to_vec()));
        let response = self
            .state
            .responses
            .lock()
            .expect("lock poisoned")
            .pop_front()
            .unwrap_or(RawExecutionOutput { exit_code: 0, stdout: String::new(), stderr: String::new() });
        Ok(response)
    }
}

fn output(exit_code: i32, stdout: &str, stderr: &str) -> RawExecutionOutput {
    RawExecutionOutput { exit_code, stdout: stdout.to_string(), stderr: stderr.to_string() }
}

fn empty_ok() -> RawExecutionOutput {
    output(0, "", "")
}

fn json(payload: &str) -> serde_json::Value {
    serde_json::from_str(payload).expect("payload should be JSON")
}

fn executor(runner: RecordingRunner, safe: bool) -> CommandExecutor<RecordingRunner> {
    CommandExecutor::new(runner, safe)
}

fn registry() -> CommandRegistry {
    CommandRegistry::with_defaults()
}

fn trace_for(request_id: &str) -> TraceContext {
    TraceContext::new(request_id)
}
use gh_client_backend::features::releases::dto::parse_release_created_output;
use gh_client_backend::features::releases::service::{
    CreateReleaseInput, DeleteReleaseAssetInput, DeleteReleaseInput, EditReleaseInput,
    ReleasesService, UploadReleaseAssetInput,
};
use gh_client_backend::features::repositories::command::RepositoriesCommandHandler;
use gh_client_backend::features::repositories::service::{
    CreateBranchInput, CreateRepositoryInput, DeleteBranchInput, EditRepositoryInput,
    RepositoriesService, RepositoryVisibility,
};

fn trace() -> TraceContext {
    TraceContext::new("req-repositories-service")
}

fn repositories(runner: RecordingRunner, safe: bool) -> RepositoriesService<RecordingRunner> {
    RepositoriesService::new(CommandRegistry::with_defaults(), CommandExecutor::new(runner, safe))
}

fn releases(runner: RecordingRunner, safe: bool) -> ReleasesService<RecordingRunner> {
    ReleasesService::new(CommandRegistry::with_defaults(), CommandExecutor::new(runner, safe))
}

#[test]
fn list_executes_repo_list_and_parses_payload() {
    let (runner, state) = RecordingRunner::new(vec![output(
        0,
        r#"[
          {
            "name":"repo-a",
            "nameWithOwner":"octocat/repo-a",
            "description":"test",
            "url":"https://github.com/octocat/repo-a",
            "isPrivate":false,
            "viewerPermission":"ADMIN"
          }
        ]"#,
        "",
    )]);
    let service = repositories(runner, false);

    let repos = service.list("octocat", 20, &trace()).expect("list should succeed");
    let repos = json(&repos);
    assert_eq!(repos.as_array().expect("list").len(), 1);
    assert_eq!(repos[0]["nameWithOwner"].as_str(), Some("octocat/repo-a"));

    let (program, args) = state.last_call().expect("command should be called");
    assert_eq!(program, "gh");
    assert!(args.contains(&"octocat".to_string()));
    assert!(args.contains(&"--limit".to_string()));
}

#[test]
fn list_rejects_zero_limit() {
    let (runner, state) = RecordingRunner::new(vec![]);
    let service = repositories(runner, false);
    let err = service.list("octocat", 0, &trace()).expect_err("zero limit must fail");
    assert_eq!(err.message, "limit must be greater than 0");
    let err = service.list(" ", 5, &trace()).expect_err("blank owner must fail");
    assert_eq!(err.message, "owner is required");
    assert_eq!(state.call_count(), 0);
}

#[test]
fn list_branches_executes_branch_list_command() {
    let (runner, state) = RecordingRunner::new(vec![output(
        0,
        r#"[{"name":"main","protected":true,"commit":{"sha":"abc123"}}]"#,
        "",
    )]);
    let service = repositories(runner, false);

    let branches = service.list_branches("octocat", "hello", 20, &trace()).expect("branch list should succeed");
    assert_eq!(json(&branches).as_array().expect("list").len(), 1);

    let (_program, args) = state.last_call().expect("command should be called");
    assert_eq!(args[0], "api");
    assert!(args[1].contains("/branches"));
    assert_eq!(args[1], "repos/octocat/hello/branches?per_page=20");
}

#[test]
fn list_commits_executes_commit_list_command() {
    let (runner, state) = RecordingRunner::new(vec![output(
        0,
        r#"[{"sha":"abc123","commit":{"message":"init","author":{"name":"octocat","email":"a@b.com","date":"2026-01-01T00:00:00Z"}}}]"#,
        "",
    )]);
    let service = repositories(runner, false);

    let commits = service
        .list_commits("octocat", "hello", Some("main"), 10, &trace())
        .expect("commit list should succeed");
    assert_eq!(json(&commits).as_array().expect("list").len(), 1);

    let (_program, args) = state.last_call().expect("command should be called");
    assert!(args[1].contains("/commits"));
    assert!(args[1].contains("sha=main"));
    assert_eq!(args[1], "repos/octocat/hello/commits?per_page=10&sha=main");
}

#[test]
fn create_branch_executes_get_ref_and_create() {
    let get_ref = output(0, r#"{"object":{"sha":"deadbeef"}}"#, "");
    let create = empty_ok();
    let (runner, state) = RecordingRunner::new(vec![get_ref, create]);
    let service = repositories(runner, false);

    let input = CreateBranchInput {
        owner: "octocat".into(),
        repo: "hello".into(),
        branch: "feature-a".into(),
        from_branch: "main".into(),
    };

    service
        .create_branch(RepoPermission::Write, &input, &trace())
        .expect("create branch should succeed");

    assert_eq!(state.call_count(), 2);
    let last = state.last_call().expect("command should be called");
    assert!(last.1.contains(&"sha=deadbeef".to_string()));
    assert!(last.1.contains(&"ref=refs/heads/feature-a".to_string()));
}

#[test]
fn edit_requires_admin_permission() {
    let (runner, state) = RecordingRunner::new(vec![empty_ok()]);
    let service = repositories(runner, false);

    let input = EditRepositoryInput {
        owner: "octocat".into(),
        repo: "hello".into(),
        description: Some("desc".into()),
        homepage: None,
        default_branch: None,
        visibility: None,
        add_topics: vec![],
        remove_topics: vec![],
        replace_topics: None,
    };

    let err = service.edit(RepoPermission::Write, &input, &trace()).expect_err("write should be denied");
    assert_eq!(err.code, ErrorCode::PermissionDenied);
    assert_eq!(state.call_count(), 0);
}

#[test]
fn edit_runs_edit_then_topic_replacement() {
    let (runner, state) = RecordingRunner::new(vec![empty_ok(), empty_ok()]);
    let service = repositories(runner, false);
    let input = EditRepositoryInput {
        owner: "octocat".into(),
        repo: "hello".into(),
        description: None,
        homepage: Some("https://example.com".into()),
        default_branch: None,
        visibility: Some(RepositoryVisibility::Private),
        add_topics: vec!["rust".into()],
        remove_topics: vec![],
        replace_topics: Some(vec!["cli".into(), "gh".into()]),
    };
    service.edit(RepoPermission::Admin, &input, &trace()).expect("edit should succeed");
    assert_eq!(state.call_count(), 2);
    let (_program, first) = state.call_at(0).expect("edit call");
    assert_eq!(
        first,
        vec![
            "repo",
            "edit",
            "octocat/hello",
            "--homepage",
            "https://example.com",
            "--visibility",
            "private",
            "--accept-visibility-change-consequences",
            "--add-topic",
            "rust",
        ]
    );
    let (_program, second) = state.call_at(1).expect("topics call");
    assert_eq!(
        second,
        vec!["api", "--method", "PUT", "repos/octocat/hello/topics", "-f", "names[]=cli", "-f", "names[]=gh"]
    );
}

#[test]
fn edit_requires_some_change() {
    let (runner, state) = RecordingRunner::new(vec![]);
    let service = repositories(runner, false);
    let input = EditRepositoryInput {
        owner: "octocat".into(),
        repo: "hello".into(),
        description: None,
        homepage: None,
        default_branch: None,
        visibility: None,
        add_topics: vec![],
        remove_topics: vec![],
        replace_topics: None,
    };
    let err = service.edit(RepoPermission::Admin, &input, &trace()).expect_err("no change must fail");
    assert_eq!(err.message, "at least one editable field must be provided");
    assert_eq!(state.call_count(), 0);
}

#[test]
fn service_create_requires_write_permission() {
    let (runner, state) = RecordingRunner::new(vec![empty_ok()]);
    let service = repositories(runner, false);

    let input = CreateRepositoryInput {
        owner: "octocat".into(),
        name: "repo-a".into(),
        private: true,
        description: None,
    };

    let err = service.create(RepoPermission::Viewer, &input, &trace()).expect_err("viewer should be denied");
    assert_eq!(err.code, ErrorCode::PermissionDenied);
    assert_eq!(state.call_count(), 0);
}

#[test]
fn create_executes_when_permission_is_sufficient() {
    let (runner, state) = RecordingRunner::new(vec![empty_ok()]);
    let service = repositories(runner, false);

    let input = CreateRepositoryInput {
        owner: "octocat".into(),
        name: "repo-b".into(),
        private: false,
        description: Some("desc".into()),
    };

    service.create(RepoPermission::Write, &input, &trace()).expect("write permission should allow create");
    assert_eq!(state.call_count(), 1);

    let (_program, args) = state.last_call().expect("command should be called");
    assert!(args.contains(&"--public".to_string()));
    assert!(args.contains(&"--description".to_string()));
}

#[test]
fn create_rejects_name_with_space() {
    let (runner, state) = RecordingRunner::new(vec![]);
    let service = repositories(runner, false);
    let input = CreateRepositoryInput {
        owner: "octocat".into(),
        name: "repo b".into(),
        private: false,
        description: None,
    };
    let err = service.create(RepoPermission::Write, &input, &trace()).expect_err("space must fail");
    assert_eq!(err.message, "repository name must not contain spaces");
    assert_eq!(state.call_count(), 0);
}

#[test]
fn delete_branch_is_noop_under_safe_test_mode() {
    let (runner, state) = RecordingRunner::new(vec![empty_ok()]);
    let service = repositories(runner, true);

    let input = DeleteBranchInput { owner: "octocat".into(), repo: "hello".into(), branch: "feature-a".into() };

    service
        .delete_branch(RepoPermission::Write, &input, &trace())
        .expect("delete branch should be skipped safely");
    assert_eq!(state.call_count(), 0);
}

#[test]
fn delete_is_noop_under_safe_test_mode() {
    let (runner, state) = RecordingRunner::new(vec![empty_ok()]);
    let service = repositories(runner, true);

    service.delete(RepoPermission::Admin, "octocat", "repo-z", &trace()).expect("delete should be skipped safely");
    assert_eq!(state.call_count(), 0);
}

#[test]
fn service_delete_requires_admin_permission() {
    let (runner, _state) = RecordingRunner::new(vec![empty_ok()]);
    let service = repositories(runner, true);

    let err = service
        .delete(RepoPermission::Write, "octocat", "repo-z", &trace())
        .expect_err("write permission should not allow delete");
    assert_eq!(err.code, ErrorCode::PermissionDenied);
}

#[test]
fn repositories_handler_lists_repositories() {
    let (runner, state) = RecordingRunner::new(vec![output(0, "[]", "")]);
    let handler = RepositoriesCommandHandler::new(repositories(runner, false));
    let payload = handler.list_repositories("req-1", "octocat", 5).expect("list should succeed");
    assert_eq!(payload, "[]");
    let (_program, args) = state.last_call().expect("command should be called");
    assert_eq!(&args[args.len() - 3..], &["octocat".to_string(), "--limit".to_string(), "5".to_string()]);
}

#[test]
fn list_executes_release_list_command() {
    let (runner, state) = RecordingRunner::new(vec![output(
        0,
        r#"[{"tagName":"v1.0.0","name":"v1","isDraft":false,"isPrerelease":false,"publishedAt":"2026-01-01T00:00:00Z","createdAt":"2026-01-01T00:00:00Z","isLatest":true}]"#,
        "",
    )]);
    let service = releases(runner, false);

    let list = service.list("octocat", "hello", 20, &trace()).expect("list should succeed");
    assert_eq!(json(&list).as_array().expect("list").len(), 1);

    let (program, args) = state.last_call().expect("command should be called");
    assert_eq!(program, "gh");
    assert!(args.contains(&"release".to_string()));
    assert!(args.contains(&"list".to_string()));
}

#[test]
fn releases_create_requires_write_permission() {
    let (runner, state) = RecordingRunner::new(vec![empty_ok()]);
    let service = releases(runner, false);

    let input = CreateReleaseInput {
        owner: "octocat".into(),
        repo: "hello".into(),
        tag: "v1.0.0".into(),
        title: Some("v1".into()),
        notes: Some("notes".into()),
        draft: false,
        prerelease: false,
        target: None,
    };

    let err = service.create(RepoPermission::Viewer, &input, &trace()).expect_err("viewer should be denied");
    assert_eq!(err.code, ErrorCode::PermissionDenied);
    assert_eq!(state.call_count(), 0);
}

#[test]
fn releases_create_reads_printed_url() {
    let (runner, state) = RecordingRunner::new(vec![output(
        0,
        "https://github.com/octocat/hello/releases/tag/v1.0.0\n",
        "",
    )]);
    let service = releases(runner, false);
    let input = CreateReleaseInput {
        owner: "octocat".into(),
        repo: "hello".into(),
        tag: "v1.0.0".into(),
        title: None,
        notes: None,
        draft: true,
        prerelease: false,
        target: Some("main".into()),
    };
    let created = service.create(RepoPermission::Write, &input, &trace()).expect("create should succeed");
    assert_eq!(created.tag_name, "v1.0.0");
    assert_eq!(created.url, "https://github.com/octocat/hello/releases/tag/v1.0.0");
    let (_program, args) = state.last_call().expect("command should be called");
    assert_eq!(args, vec!["release", "create", "v1.0.0", "--repo", "octocat/hello", "--target", "main", "--draft"]);
}

#[test]
fn releases_delete_is_noop_in_safe_test_mode() {
    let (runner, state) = RecordingRunner::new(vec![empty_ok()]);
    let service = releases(runner, true);

    let input = DeleteReleaseInput {
        owner: "octocat".into(),
        repo: "hello".into(),
        tag: "v1.0.0".into(),
        cleanup_tag: false,
    };

    service.delete(RepoPermission::Admin, &input, &trace()).expect("delete should no-op in safe mode");
    assert_eq!(state.call_count(), 0);
}

#[test]
fn releases_delete_requires_admin_permission() {
    let (runner, _state) = RecordingRunner::new(vec![empty_ok()]);
    let service = releases(runner, true);

    let input = DeleteReleaseInput {
        owner: "octocat".into(),
        repo: "hello".into(),
        tag: "v1.0.0".into(),
        cleanup_tag: true,
    };

    let err = service.delete(RepoPermission::Write, &input, &trace()).expect_err("write should not delete release");
    assert_eq!(err.code, ErrorCode::PermissionDenied);
}

#[test]
fn releases_edit_executes_command() {
    let (runner, state) = RecordingRunner::new(vec![empty_ok()]);
    let service = releases(runner, false);

    let input = EditReleaseInput {
        owner: "octocat".into(),
        repo: "hello".into(),
        tag: "v1.0.0".into(),
        title: Some("new title".into()),
        notes: None,
        draft: Some(false),
        prerelease: None,
    };

    service.edit(RepoPermission::Write, &input, &trace()).expect("edit should succeed");

    let (_program, args) = state.last_call().expect("command should be called");
    assert!(args.contains(&"--title".to_string()));
    assert!(args.contains(&"--draft=false".to_string()));
}

#[test]
fn upload_asset_executes_command() {
    let (runner, state) = RecordingRunner::new(vec![empty_ok()]);
    let service = releases(runner, false);

    let input = UploadReleaseAssetInput {
        owner: "octocat".into(),
        repo: "hello".into(),
        tag: "v1.0.0".into(),
        file_path: "/tmp/asset.zip".into(),
        clobber: true,
    };

    service.upload_asset(RepoPermission::Write, &input, &trace()).expect("upload should succeed");

    let (_program, args) = state.last_call().expect("command should be called");
    assert!(args.contains(&"--clobber".to_string()));
}

#[test]
fn delete_asset_is_noop_in_safe_test_mode() {
    let (runner, state) = RecordingRunner::new(vec![empty_ok()]);
    let service = releases(runner, true);

    let input = DeleteReleaseAssetInput {
        owner: "octocat".into(),
        repo: "hello".into(),
        tag: "v1.0.0".into(),
        asset_name: "asset.zip".into(),
    };

    service.delete_asset(RepoPermission::Admin, &input, &trace()).expect("delete asset should no-op");
    assert_eq!(state.call_count(), 0);
}

#[test]
fn parses_release_create_output() {
    let created = parse_release_created_output("v1.0.0", "https://github.com/octocat/hello/releases/tag/v1.0.0\n")
        .expect("output should parse");
    assert_eq!(created.tag_name, "v1.0.0");
    assert!(created.url.contains("releases/tag/v1.0.0"));
}

#[test]
fn release_create_output_must_not_be_blank() {
    let err = parse_release_created_output("v1.0.0", " \n").expect_err("blank output must fail");
    assert_eq!(err.code, ErrorCode::UpstreamError);
    assert_eq!(err.message, "release create output was empty");
}

#[test]
fn create_branch_needs_the_source_commit() {
    let input = CreateBranchInput {
        owner: "octocat".into(),
        repo: "hello".into(),
        branch: "feature-a".into(),
        from_branch: "main".into(),
    };
    let (runner, state) = RecordingRunner::new(vec![output(0, r#"{"object":{}}"#, "")]);
    let service = repositories(runner, false);
    let err = service.create_branch(RepoPermission::Write, &input, &trace()).expect_err("no sha");
    assert_eq!(err.code, ErrorCode::UpstreamError);
    assert_eq!(err.message, "reference payload did not contain object.sha");
    assert_eq!(state.call_count(), 1);

    let (runner, _state) = RecordingRunner::new(vec![output(0, "not json", "")]);
    let service = repositories(runner, false);
    let err = service.create_branch(RepoPermission::Write, &input, &trace()).expect_err("bad json");
    assert!(err.message.starts_with("failed to parse reference payload: "));
}
