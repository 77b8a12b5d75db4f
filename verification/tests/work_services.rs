#![allow(unused_imports, dead_code)]
use std::collections::VecDeque;
use std::io;
use std::sync::{Arc, Mutex};

use gh_client_backend::engine::command_registry::CommandRegistry;
use gh_client_backend::engine::error::ErrorCode;
use gh_client_backend::engine::executor::{CommandExecutor, RawExecutionOutput, Runner};
use gh_client_backend::engine::observability::TraceContext;
use gh_client_backend::engine::policy_guard::RepoPermission;

#[derive(Default)]
struct RecordingState {
    calls: Mutex<Vec<(String, Vec<String>)>>,
    responses: Mutex<VecDeque<RawExecutionOutput>>,
}

impl RecordingState {
    fn call_count(&self) -> usize {
        self.calls.lock().expect("lock poisoned").len()
    }

    fn last_call(&self) -> Option<(String, Vec<String>)> {
        self.calls.lock().expect("lock poisoned").last().cloned()
    }

        fn call_at(&self, index: usize) -> Option<(String, Vec<String>)> {
        self.calls.lock().expect("lock poisoned").get(index).cloned()
    }
}

#[derive(Clone)]
struct RecordingRunner {
    state: Arc<RecordingState>,
}

impl RecordingRunner {
    fn new(responses: Vec<RawExecutionOutput>) -> (Self, Arc<RecordingState>) {
        let state = Arc::new(RecordingState {
            calls: Mutex::new(Vec::new()),
            responses: Mutex::new(VecDeque::from(responses)),
        });
        (Self { state: Arc::clone(&state) }, state)
    }
}

impl Runner for RecordingRunner {
    fn run(&self, program: &str, args: &[String]) -> io::Result<RawExecutionOutput> {
        self.state
            .calls
            .lock()
            .expect("lock poisoned")
            .push((program.to_string(), args.to_vec()));
        let response = self
            .state
            .responses
            .lock()
            .expect("lock poisoned")
            .pop_front()
            .unwrap_or(RawExecutionOutput { exit_code: 0, stdout: String::new(), stderr: String::new() });
        Ok(response)
    }
}

fn output(exit_code: i32, stdout: &str, stderr: &str) -> RawExecutionOutput {
    RawExecutionOutput { exit_code, stdout: stdout.to_string(), stderr: stderr.to_string() }
}

fn empty_ok() -> RawExecutionOutput {
    output(0, "", "")
}

fn json(payload: &str) -> serde_json::Value {
    serde_json::from_str(payload).expect("payload should be JSON")
}

fn executor(runner: RecordingRunner, safe: bool) -> CommandExecutor<RecordingRunner> {
    CommandExecutor::new(runner, safe)
}

fn registry() -> CommandRegistry {
    CommandRegistry::with_defaults()
}

fn trace_for(request_id: &str) -> TraceContext {
    TraceContext::new(request_id)
}
use gh_client_backend::features::actions::service::{ActionsService, RunActionInput};
use gh_client_backend::features::auth::dto::{parse_gh_auth_status, GhAuthStatus};
use gh_client_backend::features::auth::service::AuthService;
use gh_client_backend::features::discussions::dto::{
    resolve_category_ids, DiscussionCategory, ResolvedRepository,
};
use gh_client_backend::features::discussions::service::{
    CreateDiscussionInput, DiscussionsService, MarkAnswerInput,
};
use gh_client_backend::features::issues::dto::parse_issue_created_output;
use gh_client_backend::features::issues::service::{
    CloseIssueInput, CloseReason, CreateIssueInput, EditIssueInput, IssuesService, ReopenIssueInput,
};
use gh_client_backend::features::pull_requests::dto::parse_pull_request_raw_diff;
use gh_client_backend::features::pull_requests::service::{
    CreatePullRequestInput, MergeMethod, MergePullRequestInput, PullRequestsService, ReviewEvent,
    ReviewPullRequestInput,
};

fn trace() -> TraceContext {
    TraceContext::new("req-work-service")
}

fn pulls(runner: RecordingRunner) -> PullRequestsService<RecordingRunner> {
    PullRequestsService::new(CommandRegistry::with_defaults(), CommandExecutor::new(runner, false))
}

fn issues(runner: RecordingRunner) -> IssuesService<RecordingRunner> {
    IssuesService::new(CommandRegistry::with_defaults(), CommandExecutor::new(runner, false))
}

fn discussions(runner: RecordingRunner) -> DiscussionsService<RecordingRunner> {
    DiscussionsService::new(CommandRegistry::with_defaults(), CommandExecutor::new(runner, false))
}

fn actions(runner: RecordingRunner) -> ActionsService<RecordingRunner> {
    ActionsService::new(CommandRegistry::with_defaults(), CommandExecutor::new(runner, false))
}

/// The repository and categories that a discussion id resolution reports.
fn resolved_repository(payload: &str) -> Option<ResolvedRepository> {
    let value = json(payload);
    let repository = value["data"]["repository"].clone();
    if repository.is_null() {
        return None;
    }
    let categories = repository["discussionCategories"]["nodes"]
        .as_array()
        .expect("nodes")
        .iter()
        .map(|node| DiscussionCategory {
            id: node["id"].as_str().expect("id").to_string(),
            name: node["name"].as_str().expect("name").to_string(),
            slug: node["slug"].as_str().expect("slug").to_string(),
            is_answerable: node["isAnswerable"].as_bool(),
        })
        .collect();
    Some(ResolvedRepository { id: repository["id"].as_str().expect("id").to_string(), categories })
}

#[test]
fn list_executes_pr_list_command() {
    let (runner, state) = RecordingRunner::new(vec![output(
        0,
        r#"[
          {
            "number": 1,
            "title": "hello",
            "state": "OPEN",
            "url": "https://github.com/octocat/hello/pull/1",
            "isDraft": false,
            "author": {"login": "octocat"},
            "headRefName": "feature-a",
            "baseRefName": "main"
          }
        ]"#,
        "",
    )]);
    let service = pulls(runner);

    let prs = service.list("octocat", "hello", 20, &trace()).expect("list should succeed");
    let prs = json(&prs);
    assert_eq!(prs.as_array().expect("list").len(), 1);
    assert_eq!(prs[0]["number"].as_u64(), Some(1));

    let (program, args) = state.last_call().expect("command should be called");
    assert_eq!(program, "gh");
    assert!(args.contains(&"pr".to_string()));
    assert!(args.contains(&"--repo".to_string()));
    assert!(args.contains(&"octocat/hello".to_string()));
}

#[test]
fn pulls_create_requires_write_permission() {
    let (runner, state) = RecordingRunner::new(vec![empty_ok()]);
    let service = pulls(runner);

    let input = CreatePullRequestInput {
        owner: "octocat".into(),
        repo: "hello".into(),
        title: "Add feature".into(),
        head: "feature-a".into(),
        base: "main".into(),
        body: Some("body".into()),
        draft: false,
    };

    let err = service.create(RepoPermission::Viewer, &input, &trace()).expect_err("viewer should be denied");
    assert_eq!(err.code, ErrorCode::PermissionDenied);
    assert_eq!(state.call_count(), 0);
}

#[test]
fn create_executes_and_parses_response() {
    let (runner, state) = RecordingRunner::new(vec![output(
        0,
        r#"{"number":2,"url":"https://example/pull/2","state":"OPEN"}"#,
        "",
    )]);
    let service = pulls(runner);

    let input = CreatePullRequestInput {
        owner: "octocat".into(),
        repo: "hello".into(),
        title: "Add feature".into(),
        head: "feature-a".into(),
        base: "main".into(),
        body: Some("body".into()),
        draft: true,
    };

    let created = service.create(RepoPermission::Write, &input, &trace()).expect("create should succeed");
    assert_eq!(json(&created)["number"].as_u64(), Some(2));
    assert_eq!(state.call_count(), 1);

    let (_program, args) = state.last_call().expect("command should be called");
    assert!(args.contains(&"--draft".to_string()));
    assert!(args.contains(&"--title".to_string()));
}

#[test]
fn pr_create_requires_head_and_base() {
    let (runner, state) = RecordingRunner::new(vec![]);
    let service = pulls(runner);
    let input = CreatePullRequestInput {
        owner: "octocat".into(),
        repo: "hello".into(),
        title: "Add feature".into(),
        head: " ".into(),
        base: "main".into(),
        body: None,
        draft: false,
    };
    let err = service.create(RepoPermission::Write, &input, &trace()).expect_err("blank head must fail");
    assert_eq!(err.message, "head and base are required");
    assert_eq!(state.call_count(), 0);
}

#[test]
fn review_executes_command_with_event_flag() {
    let (runner, state) = RecordingRunner::new(vec![empty_ok()]);
    let service = pulls(runner);

    let input = ReviewPullRequestInput {
        owner: "octocat".into(),
        repo: "hello".into(),
        number: 3,
        event: ReviewEvent::Approve,
        body: Some("Looks good".into()),
    };

    service.review(RepoPermission::Write, &input, &trace()).expect("review should succeed");

    let (_program, args) = state.last_call().expect("command should be called");
    assert!(args.contains(&"--approve".to_string()));
    assert!(args.contains(&"--body".to_string()));
}

#[test]
fn merge_executes_command_with_merge_method() {
    let (runner, state) = RecordingRunner::new(vec![empty_ok()]);
    let service = pulls(runner);

    let input = MergePullRequestInput {
        owner: "octocat".into(),
        repo: "hello".into(),
        number: 4,
        method: MergeMethod::Squash,
        delete_branch: true,
        auto: false,
    };

    service.merge(RepoPermission::Write, &input, &trace()).expect("merge should succeed");

    let (_program, args) = state.last_call().expect("command should be called");
    assert!(args.contains(&"--squash".to_string()));
    assert!(args.contains(&"--delete-branch".to_string()));
    assert!(!args.contains(&"--auto".to_string()));
}

#[test]
fn merge_requires_write_permission() {
    let (runner, state) = RecordingRunner::new(vec![empty_ok()]);
    let service = pulls(runner);

    let input = MergePullRequestInput {
        owner: "octocat".into(),
        repo: "hello".into(),
        number: 5,
        method: MergeMethod::Merge,
        delete_branch: false,
        auto: true,
    };

    let err = service.merge(RepoPermission::Viewer, &input, &trace()).expect_err("viewer should not merge");
    assert_eq!(err.code, ErrorCode::PermissionDenied);
    assert_eq!(state.call_count(), 0);
}

#[test]
fn wraps_raw_diff_payload() {
    let raw = parse_pull_request_raw_diff("diff --git a/a b/a\n");
    assert!(raw.text.starts_with("diff --git"));
    assert_eq!(raw.text, "diff --git a/a b/a\n");
}

#[test]
fn list_executes_issue_list_command() {
    let (runner, state) = RecordingRunner::new(vec![output(
        0,
        r#"[
          {
            "number": 11,
            "title": "Bug",
            "state": "OPEN",
            "url": "https://github.com/octocat/hello/issues/11",
            "author": {"login": "octocat"}
          }
        ]"#,
        "",
    )]);
    let service = issues(runner);

    let list = service.list("octocat", "hello", 20, &trace()).expect("list should succeed");
    assert_eq!(json(&list).as_array().expect("list").len(), 1);

    let (program, args) = state.last_call().expect("command should be called");
    assert_eq!(program, "gh");
    assert!(args.contains(&"issue".to_string()));
    assert!(args.contains(&"--repo".to_string()));
}

#[test]
fn view_executes_issue_view_command() {
    let (runner, state) = RecordingRunner::new(vec![output(
        0,
        r#"{
            "number": 11,
            "title": "Bug",
            "state": "OPEN",
            "url": "https://github.com/octocat/hello/issues/11",
            "body": "issue body",
            "comments": []
        }"#,
        "",
    )]);
    let service = issues(runner);

    let detail = service.view("octocat", "hello", 11, &trace()).expect("view should succeed");
    assert_eq!(detail.number, 11);

    let (_program, args) = state.last_call().expect("command should be called");
    assert!(args.contains(&"issue".to_string()));
    assert!(args.contains(&"view".to_string()));
    assert!(args.contains(&"--json".to_string()));
}

#[test]
fn issues_create_requires_write_permission() {
    let (runner, state) = RecordingRunner::new(vec![empty_ok()]);
    let service = issues(runner);

    let input = CreateIssueInput {
        owner: "octocat".into(),
        repo: "hello".into(),
        title: "Bug".into(),
        body: Some("desc".into()),
    };

    let err = service.create(RepoPermission::Viewer, &input, &trace()).expect_err("viewer should be denied");
    assert_eq!(err.code, ErrorCode::PermissionDenied);
    assert_eq!(state.call_count(), 0);
}

#[test]
fn create_executes_and_parses_url_output() {
    let (runner, state) = RecordingRunner::new(vec![output(0, "https://github.com/octocat/hello/issues/12\n", "")]);
    let service = issues(runner);

    let input = CreateIssueInput {
        owner: "octocat".into(),
        repo: "hello".into(),
        title: "Bug".into(),
        body: Some("desc".into()),
    };

    let created = service.create(RepoPermission::Write, &input, &trace()).expect("create should succeed");
    assert_eq!(created.number, 12);
    assert_eq!(created.url, "https://github.com/octocat/hello/issues/12");
    assert_eq!(created.state, "OPEN");
    assert_eq!(state.call_count(), 1);
}

#[test]
fn close_executes_command() {
    let (runner, state) = RecordingRunner::new(vec![empty_ok()]);
    let service = issues(runner);

    let input = CloseIssueInput {
        owner: "octocat".into(),
        repo: "hello".into(),
        number: 12,
        comment: Some("done".into()),
        reason: Some(CloseReason::Completed),
    };

    service.close(RepoPermission::Write, &input, &trace()).expect("close should succeed");

    let (_program, args) = state.last_call().expect("command should be called");
    assert!(args.contains(&"--reason".to_string()));
    assert!(args.contains(&"completed".to_string()));
}

#[test]
fn reopen_executes_command() {
    let (runner, state) = RecordingRunner::new(vec![empty_ok()]);
    let service = issues(runner);

    let input = ReopenIssueInput {
        owner: "octocat".into(),
        repo: "hello".into(),
        number: 12,
        comment: Some("retry".into()),
    };

    service.reopen(RepoPermission::Write, &input, &trace()).expect("reopen should succeed");

    let (_program, args) = state.last_call().expect("command should be called");
    assert!(args.contains(&"--comment".to_string()));
}

#[test]
fn service_edit_executes_command() {
    let (runner, state) = RecordingRunner::new(vec![empty_ok()]);
    let service = issues(runner);

    let input = EditIssueInput {
        owner: "octocat".into(),
        repo: "hello".into(),
        number: 12,
        title: Some("new title".into()),
        body: Some("new body".into()),
        add_assignees: vec!["@me".into()],
        remove_assignees: vec!["hubot".into()],
        add_labels: vec!["bug".into()],
        remove_labels: vec!["triage".into()],
    };

    service.edit(RepoPermission::Write, &input, &trace()).expect("edit should succeed");

    let (_program, args) = state.last_call().expect("command should be called");
    assert!(args.contains(&"--title".to_string()));
    assert!(args.contains(&"--body".to_string()));
    assert!(args.contains(&"--add-assignee".to_string()));
    assert!(args.contains(&"--remove-assignee".to_string()));
    assert!(args.contains(&"--add-label".to_string()));
    assert!(args.contains(&"--remove-label".to_string()));
}

#[test]
fn issue_edit_joins_lists_with_commas() {
    let (runner, state) = RecordingRunner::new(vec![empty_ok()]);
    let service = issues(runner);
    let input = EditIssueInput {
        owner: "octocat".into(),
        repo: "hello".into(),
        number: 7,
        title: None,
        body: None,
        add_assignees: vec![],
        remove_assignees: vec![],
        add_labels: vec!["bug".into(), "p1".into(), "ui".into()],
        remove_labels: vec![],
    };
    service.edit(RepoPermission::Write, &input, &trace()).expect("edit should succeed");
    let (_program, args) = state.last_call().expect("command should be called");
    assert_eq!(args, vec!["issue", "edit", "7", "--repo", "octocat/hello", "--add-label", "bug,p1,ui"]);
}

#[test]
fn parses_issue_created_output_url() {
    let created = parse_issue_created_output("https://github.com/octocat/hello/issues/42\n").expect("url output should parse");
    assert_eq!(created.number, 42);
    assert_eq!(created.state, "OPEN");
}

#[test]
fn issue_created_output_fails_for_invalid_url() {
    let err = parse_issue_created_output("not-a-url").expect_err("invalid output should fail");
    assert_eq!(err.code, ErrorCode::UpstreamError);
    assert_eq!(err.message, "failed to parse issue number from URL: not-a-url");
}

#[test]
fn issue_created_output_edge_cases() {
    let err = parse_issue_created_output("  \n").expect_err("blank output should fail");
    assert_eq!(err.message, "issue create output was empty");
    let created = parse_issue_created_output("+7").expect("a plus sign is accepted");
    assert_eq!(created.number, 7);
    let err = parse_issue_created_output("https://example/issues/18446744073709551616")
        .expect_err("overflow should fail");
    assert_eq!(err.code, ErrorCode::UpstreamError);
    let created = parse_issue_created_output("https://example/issues/18446744073709551615").expect("max fits");
    assert_eq!(created.number, u64::MAX);
    let err = parse_issue_created_output("https://example/issues/").expect_err("empty segment should fail");
    assert_eq!(err.code, ErrorCode::UpstreamError);
}

#[test]
fn list_executes_query() {
    let (runner, state) = RecordingRunner::new(vec![output(
        0,
        r#"{"data":{"repository":{"discussions":{"nodes":[{"id":"D_1","number":1,"title":"Question","url":"https://github.com/o/r/discussions/1","locked":false,"isAnswered":false,"category":{"name":"General"},"author":{"login":"octocat"}}]}}}}"#,
        "",
    )]);
    let service = discussions(runner);

    let items = service.list("octocat", "hello", 20, &trace()).expect("list should succeed");
    let nodes = json(&items)["data"]["repository"]["discussions"]["nodes"].clone();
    assert_eq!(nodes.as_array().expect("nodes").len(), 1);

    let (_program, args) = state.last_call().expect("call should be recorded");
    assert!(args.contains(&"graphql".to_string()));
}

#[test]
fn discussions_create_requires_write_permission() {
    let (runner, state) = RecordingRunner::new(vec![]);
    let service = discussions(runner);

    let input = CreateDiscussionInput {
        owner: "octocat".into(),
        repo: "hello".into(),
        category_slug: "general".into(),
        title: "Question".into(),
        body: "How to use this?".into(),
    };

    let err = service.resolve_ids(RepoPermission::Viewer, &input, &trace()).expect_err("viewer should be denied");
    assert_eq!(err.code, ErrorCode::PermissionDenied);
    assert_eq!(state.call_count(), 0);
}

#[test]
fn create_executes_resolution_and_mutation() {
    let resolve = output(
        0,
        r#"{"data":{"repository":{"id":"R_1","discussionCategories":{"nodes":[{"id":"DIC_1","name":"General","slug":"general","isAnswerable":true}]}}}}"#,
        "",
    );
    let create = output(
        0,
        r#"{"data":{"createDiscussion":{"discussion":{"number":7,"url":"https://github.com/o/r/discussions/7"}}}}"#,
        "",
    );
    let (runner, state) = RecordingRunner::new(vec![resolve, create]);
    let service = discussions(runner);

    let input = CreateDiscussionInput {
        owner: "octocat".into(),
        repo: "hello".into(),
        category_slug: "general".into(),
        title: "Question".into(),
        body: "How to use this?".into(),
    };

    let resolution = service.resolve_ids(RepoPermission::Write, &input, &trace()).expect("resolution should succeed");
    let ids = resolve_category_ids(resolved_repository(&resolution), &input.category_slug)
        .expect("category should be found");
    assert_eq!(ids.repository_id, "R_1");
    assert_eq!(ids.category_id, "DIC_1");
    let created = service.create(RepoPermission::Write, &input, &ids, &trace()).expect("create should succeed");
    assert_eq!(json(&created)["data"]["createDiscussion"]["discussion"]["number"].as_u64(), Some(7));
    assert_eq!(state.call_count(), 2);
    let (_program, args) = state.last_call().expect("call should be recorded");
    assert!(args.contains(&"repo_id=R_1".to_string()));
    assert!(args.contains(&"category_id=DIC_1".to_string()));
}

#[test]
fn discussion_resolution_reports_missing_parts() {
    let err = resolve_category_ids(None, "general").expect_err("missing repository");
    assert_eq!(err.code, ErrorCode::NotFound);
    assert_eq!(err.message, "repository not found while resolving discussion ids");
    let repo = ResolvedRepository {
        id: "R_1".into(),
        categories: vec![
            DiscussionCategory { id: "A".into(), name: "Ideas".into(), slug: "ideas".into(), is_answerable: None },
            DiscussionCategory { id: "B".into(), name: "Q".into(), slug: "q-a".into(), is_answerable: Some(true) },
            DiscussionCategory { id: "C".into(), name: "Q2".into(), slug: "q-a".into(), is_answerable: None },
        ],
    };
    let err = resolve_category_ids(Some(repo.clone()), "general").expect_err("missing category");
    assert_eq!(err.message, "discussion category `general` not found");
    let ids = resolve_category_ids(Some(repo), "q-a").expect("first match wins");
    assert_eq!(ids.category_id, "B");
}

#[test]
fn mark_answer_executes_mutation() {
    let (runner, state) = RecordingRunner::new(vec![empty_ok()]);
    let service = discussions(runner);

    let input = MarkAnswerInput { comment_id: "DC_1".into() };

    service.mark_answer(RepoPermission::Write, &input, &trace()).expect("mark answer should succeed");

    let (_program, args) = state.last_call().expect("call should be recorded");
    assert!(args.iter().any(|value| value.contains("markDiscussionCommentAsAnswer")));
    assert!(args.contains(&"comment_id=DC_1".to_string()));
}

#[test]
fn list_workflows_executes_command() {
    let (runner, state) = RecordingRunner::new(vec![output(
        0,
        r#"[{"id":1,"name":"CI","path":".github/workflows/ci.yml","state":"active"}]"#,
        "",
    )]);
    let service = actions(runner);

    let items = service.list_workflows("octocat", "hello", 50, &trace()).expect("list workflows should succeed");
    assert_eq!(json(&items).as_array().expect("list").len(), 1);

    let (program, args) = state.last_call().expect("command should be called");
    assert_eq!(program, "gh");
    assert!(args.contains(&"workflow".to_string()));
}

#[test]
fn list_runs_executes_command() {
    let (runner, state) = RecordingRunner::new(vec![output(
        0,
        r#"[{"databaseId":99,"workflowName":"CI","headBranch":"main","status":"completed","conclusion":"success","url":"https://example/run/99","displayTitle":"build"}]"#,
        "",
    )]);
    let service = actions(runner);

    let items = service.list_runs("octocat", "hello", 20, &trace()).expect("list runs should succeed");
    assert_eq!(json(&items).as_array().expect("list").len(), 1);

    let (_program, args) = state.last_call().expect("command should be called");
    assert!(args.contains(&"run".to_string()));
    assert!(args.contains(&"list".to_string()));
}

#[test]
fn rerun_requires_write_permission() {
    let (runner, state) = RecordingRunner::new(vec![empty_ok()]);
    let service = actions(runner);

    let input = RunActionInput { owner: "octocat".into(), repo: "hello".into(), run_id: 10 };

    let err = service.rerun(RepoPermission::Viewer, &input, false, &trace()).expect_err("viewer should be denied");
    assert_eq!(err.code, ErrorCode::PermissionDenied);
    assert_eq!(state.call_count(), 0);
}

#[test]
fn rerun_of_failed_jobs_adds_flag() {
    let (runner, state) = RecordingRunner::new(vec![empty_ok()]);
    let service = actions(runner);
    let input = RunActionInput { owner: "octocat".into(), repo: "hello".into(), run_id: 10 };
    service.rerun(RepoPermission::Write, &input, true, &trace()).expect("rerun should succeed");
    let (_program, args) = state.last_call().expect("command should be called");
    assert_eq!(&args[args.len() - 4..], &["10", "--repo", "octocat/hello", "--failed"]);
    let zero = RunActionInput { owner: "octocat".into(), repo: "hello".into(), run_id: 0 };
    let err = service.rerun(RepoPermission::Write, &zero, false, &trace()).expect_err("zero id must fail");
    assert_eq!(err.message, "run id must be greater than 0");
}

#[test]
fn cancel_executes_command() {
    let (runner, state) = RecordingRunner::new(vec![empty_ok()]);
    let service = actions(runner);

    let input = RunActionInput { owner: "octocat".into(), repo: "hello".into(), run_id: 11 };

    service.cancel(RepoPermission::Write, &input, &trace()).expect("cancel should succeed");

    let (_program, args) = state.last_call().expect("command should be called");
    assert!(args.contains(&"cancel".to_string()));
}

#[test]
fn parses_logged_in_status_payload() {
    let payload = "github.com
  \u{2713} Logged in to github.com account octocat (keyring)
  - Active account: true
  - Git operations protocol: https
  - Token: gho_********************
  - Token scopes: 'repo', 'read:org', 'workflow'";

    let status = parse_gh_auth_status(payload).expect("payload should parse");
    assert_eq!(status.host, "github.com");
    assert!(status.logged_in);
    assert_eq!(status.account.as_deref(), Some("octocat"));
    assert_eq!(status.active_account, Some(true));
    assert_eq!(status.git_protocol.as_deref(), Some("https"));
    assert_eq!(status.token_scopes.len(), 3);
    assert_eq!(status.token_scopes, vec!["repo", "read:org", "workflow"]);
}

#[test]
fn parses_logged_out_status_payload() {
    let payload = "github.com\n  ! not logged into any hosts";
    let status = parse_gh_auth_status(payload).expect("payload should parse");
    assert_eq!(status.host, "github.com");
    assert!(!status.logged_in);
    assert!(status.account.is_none());
}

#[test]
fn auth_status_edge_cases() {
    let err = parse_gh_auth_status(" \n\t").expect_err("blank output must fail");
    assert_eq!(err.code, ErrorCode::UpstreamError);
    assert_eq!(err.message, "failed to parse gh auth status payload: empty output");
    let status = parse_gh_auth_status("ghe.example.com\r\n  - Active account: FALSE\r\n  - Token scopes: \"gist\", , 'repo'\r\n")
        .expect("payload should parse");
    assert_eq!(status.host, "ghe.example.com");
    assert_eq!(status.active_account, Some(false));
    assert_eq!(status.token_scopes, vec!["gist", "repo"]);
    assert!(!status.logged_in);
    let default = GhAuthStatus::logged_out_default("github.com");
    assert_eq!(default.host, "github.com");
    assert!(default.token_scopes.is_empty());
}

#[test]
fn status_executes_gh_auth_status() {
    let (runner, state) = RecordingRunner::new(vec![output(
        0,
        "github.com\n  \u{2713} Logged in to github.com account octocat (keyring)\n  - Active account: true\n  - Token scopes: 'repo', 'workflow'",
        "",
    )]);
    let service = AuthService::new(CommandRegistry::with_defaults(), CommandExecutor::new(runner, false));

    let status = service.status(&trace()).expect("status should succeed");
    assert!(status.logged_in);
    assert_eq!(status.account.as_deref(), Some("octocat"));

    let (_program, args) = state.last_call().expect("command should be called");
    assert_eq!(args[0], "auth");
    assert_eq!(args[1], "status");
}

#[test]
fn status_returns_logged_out_when_not_authenticated() {
    let (runner, state) = RecordingRunner::new(vec![output(1, "", "run gh auth login to authenticate")]);
    let service = AuthService::new(CommandRegistry::with_defaults(), CommandExecutor::new(runner, false));

    let status = service.status(&trace()).expect("status should map to logged out");
    assert!(!status.logged_in);
    assert_eq!(state.call_count(), 1);
}
