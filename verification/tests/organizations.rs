use std::io;
use std::sync::{Arc, Mutex};

use gh_client_backend::engine::command_registry::CommandRegistry;
use gh_client_backend::engine::executor::{CommandExecutor, RawExecutionOutput, Runner};
use gh_client_backend::engine::observability::TraceContext;
use gh_client_backend::features::auth::dto::GhOrganization;
use gh_client_backend::features::auth::service::AuthService;
use gh_client_backend::features::auth::organizations::normalize_organizations;
use gh_client_backend::text::blank;

/// The organizations a payload lists: none for a blank payload, else the
/// entries of the JSON array, normalized.
fn organizations(payload: &str) -> Vec<GhOrganization> {
    if blank(payload) {
        return Vec::new();
    }
    let parsed: Vec<serde_json::Value> = serde_json::from_str(payload).expect("payload is JSON");
    let raw = parsed
        .iter()
        .map(|item| GhOrganization {
            login: item["login"].as_str().expect("login").to_string(),
            name: item["name"].as_str().map(|s| s.to_string()),
        })
        .collect();
    normalize_organizations(raw)
}

fn org(login: &str, name: Option<&str>) -> GhOrganization {
    GhOrganization { login: login.to_string(), name: name.map(|n| n.to_string()) }
}

#[test]
fn parses_organizations_payload() {
    let payload = r#"[
      {"login":"octo-org","name":"Octo Org"},
      {"login":"team-aaa","name":null}
    ]"#;
    let organizations = organizations(payload);
    assert_eq!(organizations.len(), 2);
    assert_eq!(organizations[0].login, "octo-org");
    assert_eq!(organizations[0].name.as_deref(), Some("Octo Org"));
    assert_eq!(organizations[1].login, "team-aaa");
    assert!(organizations[1].name.is_none());
}

#[test]
fn parses_empty_organizations_payload_as_empty() {
    assert!(organizations(" \n ").is_empty());
}

#[test]
fn organizations_are_trimmed_and_blank_logins_dropped() {
    let listed = normalize_organizations(vec![
        org("  zeta ", Some("  Zeta Inc ")),
        org("   ", Some("nobody")),
        org("alpha", Some("   ")),
    ]);
    assert_eq!(listed, vec![org("alpha", None), org("zeta", Some("Zeta Inc"))]);
}

#[test]
fn organizations_are_sorted_stably_and_repeats_dropped() {
    let listed = normalize_organizations(vec![
        org("beta", Some("first beta")),
        org("Alpha", None),
        org("beta", Some("second beta")),
        org("BETA", None),
        org("alpha", None),
    ]);
    // Sorted by code point: "Alpha" < "BETA" < "alpha" < "beta" < "beta".
    // The second "beta" repeats the first and is dropped; the first stays.
    assert_eq!(
        listed,
        vec![
            org("Alpha", None),
            org("BETA", None),
            org("alpha", None),
            org("beta", Some("first beta")),
        ]
    );
}

#[test]
fn prefix_sorts_before_longer_login() {
    let listed = normalize_organizations(vec![org("octo-org", None), org("octo", None)]);
    assert_eq!(listed, vec![org("octo", None), org("octo-org", None)]);
}

#[derive(Clone)]
struct OneShotRunner {
    stdout: String,
    calls: Arc<Mutex<Vec<(String, Vec<String>)>>>,
}

impl Runner for OneShotRunner {
    fn run(&self, program: &str, args: &[String]) -> io::Result<RawExecutionOutput> {
        self.calls.lock().expect("lock poisoned").push((program.to_string(), args.to_vec()));
        Ok(RawExecutionOutput { exit_code: 0, stdout: self.stdout.clone(), stderr: String::new() })
    }
}

#[test]
fn organizations_are_read_from_the_user_orgs_api() {
    let calls = Arc::new(Mutex::new(Vec::new()));
    let runner = OneShotRunner {
        stdout: r#"[{"login":"octo-org","name":"Octo Org"}]"#.to_string(),
        calls: Arc::clone(&calls),
    };
    let service =
        AuthService::new(CommandRegistry::with_defaults(), CommandExecutor::new(runner, false));
    let payload = service.list_organizations(&TraceContext::new("req-orgs")).expect("listed");
    let listed = organizations(&payload);
    assert_eq!(listed[0].login, "octo-org");
    let (program, args) = calls.lock().expect("lock poisoned").last().cloned().expect("called");
    assert_eq!(program, "gh");
    assert_eq!(args, vec!["api".to_string(), "user/orgs?per_page=100".to_string()]);
}
