use gh_client_backend::engine::error::ErrorCode;
use gh_client_backend::features::issues::service::CloseReason;
use gh_client_backend::features::pull_requests::service::{MergeMethod, ReviewEvent};
use gh_client_backend::features::repositories::service::RepositoryVisibility;
use gh_client_backend::features::settings::service::{
    CollaboratorPermission, SecretApp, WebhookContentType,
};
use gh_client_backend::keywords::{
    flag_enabled, parse_collaborator_permission, parse_issue_close_reason, parse_merge_method,
    parse_repo_visibility, parse_review_event, parse_secret_app, parse_webhook_content_type,
};

fn some(s: &str) -> Option<String> {
    Some(s.to_string())
}

#[test]
fn parse_env_bool_true_values() {
    assert!(flag_enabled(some("1")));
    assert!(flag_enabled(some("true")));
    assert!(flag_enabled(some("yes")));
}

#[test]
fn parse_env_bool_false_values() {
    assert!(!flag_enabled(some("0")));
    assert!(!flag_enabled(None));
}

#[test]
fn flag_values_are_read_leniently() {
    assert!(flag_enabled(some("  TRUE ")));
    assert!(flag_enabled(some("Yes")));
    assert!(!flag_enabled(some("on")));
    assert!(!flag_enabled(some("")));
}

#[test]
fn visibility_keywords() {
    assert_eq!(parse_repo_visibility(None).unwrap(), None);
    assert_eq!(parse_repo_visibility(some(" Public ")).unwrap(), Some(RepositoryVisibility::Public));
    assert_eq!(parse_repo_visibility(some("PRIVATE")).unwrap(), Some(RepositoryVisibility::Private));
    assert_eq!(parse_repo_visibility(some("internal")).unwrap(), Some(RepositoryVisibility::Internal));
    let err = parse_repo_visibility(some(" Secret ")).unwrap_err();
    assert_eq!(err.code, ErrorCode::ValidationError);
    assert_eq!(err.message, "invalid visibility:  Secret ");
}

#[test]
fn review_event_keywords() {
    assert_eq!(parse_review_event("approve").unwrap(), ReviewEvent::Approve);
    assert_eq!(parse_review_event("Request Changes").unwrap(), ReviewEvent::RequestChanges);
    assert_eq!(parse_review_event("request-changes").unwrap(), ReviewEvent::RequestChanges);
    assert_eq!(parse_review_event(" request changes ").unwrap(), ReviewEvent::RequestChanges);
    assert_eq!(parse_review_event("COMMENT").unwrap(), ReviewEvent::Comment);
    assert!(parse_review_event("request--changes").is_err());
    assert!(parse_review_event("requestchanges").is_err());
    let err = parse_review_event("reject").unwrap_err();
    assert_eq!(err.code, ErrorCode::ValidationError);
    assert_eq!(err.message, "invalid review event: reject");
}

#[test]
fn merge_method_keywords() {
    assert_eq!(parse_merge_method("merge").unwrap(), MergeMethod::Merge);
    assert_eq!(parse_merge_method(" Squash").unwrap(), MergeMethod::Squash);
    assert_eq!(parse_merge_method("REBASE").unwrap(), MergeMethod::Rebase);
    let err = parse_merge_method("fast-forward").unwrap_err();
    assert_eq!(err.message, "invalid merge method: fast-forward");
}

#[test]
fn close_reason_keywords() {
    assert_eq!(parse_issue_close_reason(None).unwrap(), None);
    assert_eq!(parse_issue_close_reason(some("completed")).unwrap(), Some(CloseReason::Completed));
    assert_eq!(parse_issue_close_reason(some("Not Planned")).unwrap(), Some(CloseReason::NotPlanned));
    assert_eq!(parse_issue_close_reason(some("not_planned")).unwrap(), Some(CloseReason::NotPlanned));
    assert_eq!(parse_issue_close_reason(some("not-planned")).unwrap(), Some(CloseReason::NotPlanned));
    let err = parse_issue_close_reason(some("duplicate")).unwrap_err();
    assert_eq!(err.message, "invalid issue close reason: duplicate");
}

#[test]
fn collaborator_permission_keywords() {
    assert_eq!(parse_collaborator_permission("pull").unwrap(), CollaboratorPermission::Pull);
    assert_eq!(parse_collaborator_permission("Push").unwrap(), CollaboratorPermission::Push);
    assert_eq!(parse_collaborator_permission("admin").unwrap(), CollaboratorPermission::Admin);
    assert_eq!(parse_collaborator_permission("maintain").unwrap(), CollaboratorPermission::Maintain);
    assert_eq!(parse_collaborator_permission(" triage ").unwrap(), CollaboratorPermission::Triage);
    let err = parse_collaborator_permission("owner").unwrap_err();
    assert_eq!(err.message, "invalid collaborator permission: owner");
}

#[test]
fn secret_app_keywords() {
    assert_eq!(parse_secret_app(None).unwrap(), None);
    assert_eq!(parse_secret_app(some("actions")).unwrap(), Some(SecretApp::Actions));
    assert_eq!(parse_secret_app(some("Dependabot")).unwrap(), Some(SecretApp::Dependabot));
    assert_eq!(parse_secret_app(some("codespaces")).unwrap(), Some(SecretApp::Codespaces));
    let err = parse_secret_app(some("pages")).unwrap_err();
    assert_eq!(err.message, "invalid secret app: pages");
}

#[test]
fn webhook_content_type_keywords() {
    assert_eq!(parse_webhook_content_type(None).unwrap(), WebhookContentType::Json);
    assert_eq!(parse_webhook_content_type(some("JSON")).unwrap(), WebhookContentType::Json);
    assert_eq!(parse_webhook_content_type(some(" form ")).unwrap(), WebhookContentType::Form);
    let err = parse_webhook_content_type(some(" XML ")).unwrap_err();
    assert_eq!(err.code, ErrorCode::ValidationError);
    assert_eq!(err.message, "invalid webhook content_type: xml");
}
