//! What the settings commands report, as plain records.
use vstd::prelude::*;

verus! {

#[derive(Debug, Clone, PartialEq, Eq)]
pub struct CollaboratorPermissions {
    pub admin: Option<bool>,
    pub push: Option<bool>,
    pub pull: Option<bool>,
    pub maintain: Option<bool>,
    pub triage: Option<bool>,
}

#[derive(Debug, Clone, PartialEq, Eq)]
pub struct Collaborator {
    pub login: String,
    pub permissions: Option<CollaboratorPermissions>,
}

#[derive(Debug, Clone, PartialEq, Eq)]
pub struct SecretSummary {
    pub name: String,
    pub updated_at: Option<String>,
    pub visibility: Option<String>,
}

#[derive(Debug, Clone, PartialEq, Eq)]
pub struct VariableSummary {
    pub name: String,
    pub value: Option<String>,
    pub updated_at: Option<String>,
    pub created_at: Option<String>,
    pub visibility: Option<String>,
}

#[derive(Debug, Clone, PartialEq, Eq)]
pub struct WebhookConfig {
    pub url: Option<String>,
    pub content_type: Option<String>,
}

#[derive(Debug, Clone, PartialEq, Eq)]
pub struct WebhookSummary {
    pub id: u64,
    pub name: Option<String>,
    pub active: Option<bool>,
    pub events: Option<Vec<String>>,
    pub config: Option<WebhookConfig>,
}

/// The protection of a branch, as far as an update reads it.
#[derive(Debug, Clone, PartialEq, Eq)]
pub struct BranchProtection {
    pub url: Option<String>,
    pub required_pull_request_reviews: Option<RequiredPullRequestReviews>,
    pub enforce_admins: Option<EnforceAdmins>,
}

#[derive(Debug, Clone, Copy, PartialEq, Eq)]
pub struct RequiredPullRequestReviews {
    pub required_approving_review_count: Option<u8>,
    pub dismiss_stale_reviews: Option<bool>,
    pub require_code_owner_reviews: Option<bool>,
}

#[derive(Debug, Clone, Copy, PartialEq, Eq)]
pub struct EnforceAdmins {
    pub enabled: Option<bool>,
}

#[derive(Debug, Clone, PartialEq, Eq)]
pub struct DeployKeySummary {
    pub id: u64,
    pub title: String,
    pub key: Option<String>,
    pub read_only: bool,
}

#[derive(Debug, Clone, PartialEq, Eq)]
pub struct DependabotAlertDependency {
    pub package: Option<DependabotPackage>,
}

#[derive(Debug, Clone, PartialEq, Eq)]
pub struct DependabotPackage {
    pub name: Option<String>,
    pub ecosystem: Option<String>,
}

#[derive(Debug, Clone, PartialEq, Eq)]
pub struct DependabotAlert {
    pub number: Option<u64>,
    pub state: Option<String>,
    pub dependency: Option<DependabotAlertDependency>,
}

} // verus!
