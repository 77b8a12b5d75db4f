use gh_client_backend::contract::{
    PAYLOAD_CONTRACT_VERSION, map_permission, stable_command_ids, validate_envelope_fields,
    validate_registry_contract, ContractRepoPermission,
};
use gh_client_backend::engine::command_registry::{CommandRegistry, CommandSafety, CommandSpec};
use gh_client_backend::engine::error::{AppError, ErrorCode};
use gh_client_backend::engine::observability::{TraceContext, TraceIds};
use gh_client_backend::engine::policy_guard::{PolicyGuard, RepoPermission};
use gh_client_backend::text::{blank, trimmed};

#[test]
fn stable_contract_matches_default_registry() {
    let registry = CommandRegistry::with_defaults();
    validate_registry_contract(&registry).expect("stable contract should match registry");
}

#[test]
fn registry_contract_names_first_missing_command() {
    let mut registry = CommandRegistry::new();
    registry
        .register(CommandSpec::new("auth.organizations.list", "gh", &["api"], CommandSafety::NonDestructive))
        .expect("registration should succeed");
    let err = validate_registry_contract(&registry).expect_err("contract must fail");
    assert_eq!(err.code, ErrorCode::ValidationError);
    assert_eq!(err.message, "stable contract mismatch: missing command `auth.status` in registry");
}

#[test]
fn envelope_validation_rejects_unknown_command() {
    let registry = CommandRegistry::with_defaults();
    let err = validate_envelope_fields(PAYLOAD_CONTRACT_VERSION, "req-1", "unknown.command", &registry)
        .expect_err("unknown command must fail");
    assert!(err.message.contains("stable frontend contract"));
}

#[test]
fn envelope_validation_accepts_stable_command() {
    let registry = CommandRegistry::with_defaults();
    validate_envelope_fields(PAYLOAD_CONTRACT_VERSION, "req-2", "repo.list", &registry)
        .expect("envelope should be valid");
}

#[test]
fn envelope_validation_checks_version_then_ids() {
    let registry = CommandRegistry::with_defaults();
    let err = validate_envelope_fields("invalid-version", "req-3", "repo.list", &registry)
        .expect_err("version must fail");
    assert_eq!(err.message, "unsupported contract version: invalid-version");
    let err = validate_envelope_fields(PAYLOAD_CONTRACT_VERSION, "  ", "repo.list", &registry)
        .expect_err("request id must fail");
    assert_eq!(err.message, "request_id is required");
    let err = validate_envelope_fields(PAYLOAD_CONTRACT_VERSION, "req-4", "", &registry)
        .expect_err("command id must fail");
    assert_eq!(err.message, "command_id is required");
    let empty = CommandRegistry::new();
    let err = validate_envelope_fields(PAYLOAD_CONTRACT_VERSION, "req-5", "repo.list", &empty)
        .expect_err("unregistered command must fail");
    assert_eq!(err.message, "command_id `repo.list` is not registered in backend");
}

#[test]
fn envelope_permission_defaults_to_viewer() {
    assert_eq!(map_permission(None), RepoPermission::Viewer);
    assert_eq!(map_permission(Some(ContractRepoPermission::Write)), RepoPermission::Write);
    assert_eq!(map_permission(Some(ContractRepoPermission::Admin)), RepoPermission::Admin);
    assert_eq!(stable_command_ids().len(), 19);
}

#[test]
fn rejects_duplicate_registration() {
    let mut registry = CommandRegistry::new();
    registry
        .register(CommandSpec::new("repo.list", "gh", &["repo", "list"], CommandSafety::NonDestructive))
        .expect("initial registration should succeed");

    let second = registry.register(CommandSpec::new(
        "repo.list",
        "gh",
        &["repo", "list"],
        CommandSafety::NonDestructive,
    ));

    assert!(second.is_err());
    assert_eq!(registry.len(), 1);
}

#[test]
fn builds_request_with_static_and_dynamic_args() {
    let registry = CommandRegistry::with_defaults();
    let req = registry
        .build_request("repo.list", &["octocat".into(), "--limit".into(), "10".into()])
        .expect("request should build");

    assert_eq!(req.program, "gh");
    assert!(req.args.contains(&"repo".to_string()));
    assert!(req.args.contains(&"octocat".to_string()));
    assert_eq!(req.safety, CommandSafety::NonDestructive);
}

#[test]
fn request_arguments_are_base_then_dynamic() {
    let registry = CommandRegistry::with_defaults();
    let req = registry
        .build_request("repo.delete", &["octocat/hello".into(), "--yes".into()])
        .expect("request should build");
    assert_eq!(req.command_id, "repo.delete");
    assert_eq!(req.args, vec!["repo", "delete", "octocat/hello", "--yes"]);
    assert_eq!(req.safety, CommandSafety::Destructive);
}

#[test]
fn rejects_unknown_command() {
    let registry = CommandRegistry::with_defaults();
    let err = registry.build_request("unknown.command", &[]).expect_err("unknown command must fail");
    assert!(err.message.contains("not registered"));
}

#[test]
fn rejects_nul_in_argument() {
    let registry = CommandRegistry::with_defaults();
    let err = registry
        .build_request("repo.list", &["bad\0arg".into()])
        .expect_err("nul byte should fail validation");
    assert!(err.message.contains("NUL"));
}

#[test]
fn default_registry_contains_expected_commands() {
    // 54 commands for repositories, pull requests, issues, actions, releases
    // and settings, and 29 more that the insights, projects, discussions,
    // wiki, pages, rulesets and auth services, issue view and the stable
    // front-end contract need.
    let registry = CommandRegistry::with_defaults();
    assert_eq!(registry.len(), 83);
}

#[test]
fn default_registry_ids_are_distinct_and_listed_in_order() {
    let registry = CommandRegistry::with_defaults();
    let ids = registry.command_ids();
    assert_eq!(ids.len(), registry.len());
    assert_eq!(ids[0], "repo.list");
    let mut sorted = ids.clone();
    sorted.sort();
    sorted.dedup();
    assert_eq!(sorted.len(), ids.len());
    assert!(registry.contains("auth.status"));
    assert!(!registry.contains("unknown.command"));
}

#[test]
fn fingerprint_is_stable_for_same_input() {
    let a = AppError::validation("bad input");
    let b = AppError::validation("bad input");
    assert_eq!(a.fingerprint, b.fingerprint);
}

#[test]
fn fingerprint_changes_when_message_changes() {
    let a = AppError::validation("bad input");
    let b = AppError::validation("other bad input");
    assert_ne!(a.fingerprint, b.fingerprint);
}

#[test]
fn fingerprint_is_sixteen_hex_digits_at_most() {
    let a = AppError::new(ErrorCode::NotFound, "missing", false);
    assert!(!a.fingerprint.is_empty());
    assert!(a.fingerprint.len() <= 16);
    assert!(a.fingerprint.chars().all(|c| c.is_ascii_hexdigit() && !c.is_ascii_uppercase()));
}

#[test]
fn display_includes_code_and_message() {
    let err = AppError::permission("no access");
    let text = err.to_display_string();
    assert!(text.contains("PermissionDenied"));
    assert!(text.contains("no access"));
    assert_eq!(text, "PermissionDenied: no access");
}

#[test]
fn trace_context_generates_unique_trace_id() {
    let a = TraceContext::generate();
    let b = TraceContext::generate();
    assert_ne!(a.trace_id, b.trace_id);
    assert_ne!(a.request_id, b.request_id);
}

#[test]
fn trace_context_respects_request_id() {
    let ctx = TraceContext::new("request-123");
    assert_eq!(ctx.request_id, "request-123");
    assert!(ctx.trace_id.starts_with("trace-"));
}

#[test]
fn allows_when_permission_is_sufficient() {
    let guard = PolicyGuard;
    let result = guard.require(RepoPermission::Write, RepoPermission::Admin, "repo.create");
    assert!(result.is_ok());
}

#[test]
fn denies_when_permission_is_insufficient() {
    let guard = PolicyGuard;
    let result = guard.require(RepoPermission::Admin, RepoPermission::Write, "repo.delete");
    let err = result.expect_err("expected permission error");
    assert!(err.message.contains("repo.delete"));
    assert!(err.message.contains("admin"));
    assert_eq!(err.message, "action `repo.delete` requires admin permission (actual: write)");
    assert_eq!(err.code, ErrorCode::PermissionDenied);
}

#[test]
fn raising_the_level_never_turns_an_allowed_action_into_a_refusal() {
    let guard = PolicyGuard;
    let levels = [RepoPermission::Viewer, RepoPermission::Write, RepoPermission::Admin];
    for (i, required) in levels.iter().enumerate() {
        for (j, actual) in levels.iter().enumerate() {
            let allowed = guard.require(*required, *actual, "repo.edit").is_ok();
            assert_eq!(allowed, j >= i);
        }
        assert!(guard.require(*required, RepoPermission::Admin, "repo.edit").is_ok());
    }
}

#[test]
fn trimmed_text_is_empty_exactly_when_blank() {
    for text in ["", "   ", "\t\n", " a ", "x"] {
        assert_eq!(trimmed(text).is_empty(), blank(text));
    }
    assert_eq!(trimmed("  octo cat \n"), "octo cat");
}

#[test]
fn numbered_trace_ids_follow_the_counter() {
    let mut ids = TraceIds::new();
    let a = ids.generate();
    let b = ids.generate();
    assert_eq!(a.request_id, "req-0000000000000001");
    assert_eq!(a.trace_id, "trace-0000000000000002");
    assert_eq!(b.request_id, "req-0000000000000003");
    assert_eq!(b.trace_id, "trace-0000000000000004");
    assert_ne!(a.trace_id, b.trace_id);
    assert_ne!(a.request_id, b.request_id);
    let c = ids.context("request-9");
    assert_eq!(c.request_id, "request-9");
    assert_eq!(c.trace_id, "trace-0000000000000005");
}
