use gh_client_backend::engine::error::ErrorCode;
use gh_client_backend::features::discussions::dto::{
    map_discussions, resolve_category_ids, DiscussionCategory, DiscussionNode, ResolvedRepository,
};
use gh_client_backend::features::issues::dto::{issue_detail_from_json, parse_issue_detail};
use gh_client_backend::features::projects::dto::{
    map_project_items, ProjectItemContent, ProjectItemNode,
};
use gh_client_backend::features::pull_requests::dto::{
    map_issue_comments, map_review_comments, map_review_threads, ApiUser, IssueCommentResponse,
    PullRequestCommentKind, ReviewCommentResponse, ReviewThreadCommentNode, ReviewThreadCommit,
    ReviewThreadNode, ReviewThreadReplyTo,
};
use gh_client_backend::json::JsonValue;

/// The library's model of a parsed JSON document.
fn model(value: &serde_json::Value) -> JsonValue {
    match value {
        serde_json::Value::Null => JsonValue::Null,
        serde_json::Value::Bool(b) => JsonValue::Bool(*b),
        serde_json::Value::Number(n) => JsonValue::Number(n.as_u64()),
        serde_json::Value::String(s) => JsonValue::Str(s.clone()),
        serde_json::Value::Array(items) => JsonValue::Array(items.iter().map(model).collect()),
        serde_json::Value::Object(map) => {
            JsonValue::Object(map.iter().map(|(k, v)| (k.clone(), model(v))).collect())
        }
    }
}

fn parsed(json: &str) -> JsonValue {
    model(&serde_json::from_str::<serde_json::Value>(json).expect("test payload is JSON"))
}

fn user(login: &str) -> Option<ApiUser> {
    Some(ApiUser { login: Some(login.to_string()) })
}

#[test]
fn parses_issue_detail_payload_with_comments() {
    let json = r#"
    {
      "number": 26,
      "title": "Issue title",
      "state": "OPEN",
      "url": "https://github.com/octocat/hello/issues/26",
      "body": "Issue body",
      "author": { "login": "octocat" },
      "labels": [{ "name": "bug" }],
      "assignees": [{ "login": "hubot" }],
      "updatedAt": "2026-03-09T00:00:00Z",
      "comments": [
        {
          "id": 101,
          "body": "First comment",
          "createdAt": "2026-03-09T01:00:00Z",
          "author": { "login": "maintainer" },
          "url": "https://github.com/octocat/hello/issues/26#issuecomment-101"
        }
      ]
    }
    "#;
    let detail = parse_issue_detail(json).expect("detail payload should parse");
    assert_eq!(detail.number, 26);
    assert_eq!(detail.comments.len(), 1);
    assert_eq!(detail.comments[0].id, Some(101));
    assert_eq!(detail.comments[0].author.as_ref().map(|a| a.login.as_str()), Some("maintainer"));
    assert_eq!(detail.labels.as_ref().map(|l| l[0].name.as_str()), Some("bug"));
    assert_eq!(detail.assignees.as_ref().map(|a| a[0].login.as_str()), Some("hubot"));
}

#[test]
fn parses_issue_detail_comment_nodes_shape() {
    let json = r#"
    {
      "number": 1,
      "title": "Issue title",
      "state": "OPEN",
      "url": "https://example.test/issues/1",
      "body": "Body",
      "comments": {
        "nodes": [
          {
            "databaseId": 10,
            "body": "Node comment",
            "createdAt": "2026-03-09T01:00:00Z",
            "author": { "login": "maintainer-a" }
          }
        ]
      }
    }
    "#;
    let detail = parse_issue_detail(json).expect("detail payload should parse");
    assert_eq!(detail.comments.len(), 1);
    assert_eq!(detail.comments[0].id, Some(10));
}

#[test]
fn issue_detail_without_number_is_refused() {
    let err = issue_detail_from_json(&parsed(r#"{"title":"t","state":"OPEN","url":"u"}"#))
        .expect_err("a detail without a number is refused");
    assert_eq!(err.code, ErrorCode::UpstreamError);
}

#[test]
fn parses_issue_comments_payload() {
    let comments = map_issue_comments(vec![IssueCommentResponse {
        id: 100,
        body: "hello".into(),
        created_at: "2026-03-01T00:00:00Z".into(),
        user: user("octocat"),
        html_url: Some("https://github.com/octocat/hello/pull/3#issuecomment-1".into()),
        url: None,
    }]);
    assert_eq!(comments.len(), 1);
    assert_eq!(comments[0].kind, PullRequestCommentKind::IssueComment);
    assert_eq!(comments[0].id, Some(100));
    assert_eq!(comments[0].url.as_deref(), Some("https://github.com/octocat/hello/pull/3#issuecomment-1"));
}

#[test]
fn parses_review_comments_payload() {
    let comments = map_review_comments(vec![ReviewCommentResponse {
        id: 101,
        body: "nit".into(),
        created_at: "2026-03-01T00:00:00Z".into(),
        user: user("octocat"),
        html_url: Some("https://github.com/octocat/hello/pull/3#discussion_r1".into()),
        url: None,
        in_reply_to_id: Some(50),
        path: Some("src/lib.rs".into()),
        line: Some(10),
        side: Some("RIGHT".into()),
        commit_id: Some("abc123".into()),
    }]);
    assert_eq!(comments.len(), 1);
    assert_eq!(comments[0].kind, PullRequestCommentKind::ReviewComment);
    assert_eq!(comments[0].reply_to_comment_id, Some(50));
}

#[test]
fn parses_review_threads_payload() {
    let threads = map_review_threads(Some(vec![ReviewThreadNode {
        id: "PRRT_1".into(),
        is_resolved: false,
        is_outdated: false,
        path: Some("src/lib.rs".into()),
        line: Some(10),
        comments: vec![ReviewThreadCommentNode {
            database_id: Some(101),
            body: "nit".into(),
            created_at: "2026-03-01T00:00:00Z".into(),
            author: user("octocat"),
            reply_to: Some(ReviewThreadReplyTo { database_id: Some(100) }),
            path: Some("src/lib.rs".into()),
            line: Some(10),
            diff_side: Some("RIGHT".into()),
            commit: Some(ReviewThreadCommit { oid: Some("abc123".into()) }),
            original_commit: None,
        }],
    }]));
    assert_eq!(threads.len(), 1);
    assert_eq!(threads[0].thread_id, "PRRT_1");
    assert_eq!(threads[0].comments[0].id, Some(101));
    assert_eq!(threads[0].comments[0].reply_to_comment_id, Some(100));
    assert_eq!(threads[0].comments[0].commit_id.as_deref(), Some("abc123"));
}

#[test]
fn missing_review_threads_are_none() {
    assert!(map_review_threads(None).is_empty());
}

#[test]
fn parses_discussions_payload() {
    let discussions = map_discussions(Some(vec![DiscussionNode {
        id: "D_1".into(),
        number: 1,
        title: "Question".into(),
        url: "https://github.com/o/r/discussions/1".into(),
        locked: Some(false),
        is_answered: Some(false),
        category_name: Some(Some("General".into())),
        author_login: Some(Some("octocat".into())),
    }]));
    assert_eq!(discussions.len(), 1);
    assert_eq!(discussions[0].number, 1);
    assert_eq!(discussions[0].category.as_deref(), Some("General"));
    assert_eq!(discussions[0].author.as_deref(), Some("octocat"));
}

fn general_repository() -> ResolvedRepository {
    ResolvedRepository {
        id: "R_1".into(),
        categories: vec![DiscussionCategory {
            id: "DIC_1".into(),
            name: "General".into(),
            slug: "general".into(),
            is_answerable: Some(true),
        }],
    }
}

#[test]
fn parses_resolved_ids_payload() {
    let ids = resolve_category_ids(Some(general_repository()), "general").expect("ids resolve");
    assert_eq!(ids.repository_id, "R_1");
    assert_eq!(ids.category_id, "DIC_1");
}

#[test]
fn unknown_category_slug_is_not_found() {
    let err = resolve_category_ids(Some(general_repository()), "ideas").expect_err("no category");
    assert_eq!(err.code, ErrorCode::NotFound);
    assert_eq!(err.message, "discussion category `ideas` not found");
    let err = resolve_category_ids(None, "general").expect_err("no repository");
    assert_eq!(err.message, "repository not found while resolving discussion ids");
}

#[test]
fn parses_project_items_payload() {
    let items = map_project_items(Some(vec![ProjectItemNode {
        id: "PVTI_1".into(),
        content: Some(ProjectItemContent {
            typename: Some("Issue".into()),
            title: Some("Bug".into()),
            url: Some("https://github.com/o/r/issues/1".into()),
        }),
    }]));
    assert_eq!(items.len(), 1);
    assert_eq!(items[0].content_type.as_deref(), Some("Issue"));
}

#[test]
fn parses_wiki_payload() {
    let json = r#"{"has_wiki":true,"html_url":"https://github.com/octocat/hello"}"#;
    let value: serde_json::Value = serde_json::from_str(json).expect("payload is JSON");
    let info = gh_client_backend::features::wiki::dto::wiki_info_from(
        value["has_wiki"].as_bool().expect("has_wiki"),
        value["html_url"].as_str().expect("html_url").to_string(),
    );
    assert!(info.has_wiki);
    assert_eq!(info.wiki_url, "https://github.com/octocat/hello/wiki");
}

#[test]
fn issue_detail_that_is_not_json_is_an_upstream_error() {
    let err = parse_issue_detail("{not json").expect_err("not JSON");
    assert_eq!(err.code, ErrorCode::UpstreamError);
    assert!(err.message.starts_with("failed to parse issue detail payload: "));
}
