//! Repository settings: collaborators, secrets, variables, webhooks, branch
//! protection, deploy keys and Dependabot alerts. Every operation needs admin
//! permission.
use vstd::prelude::*;
use crate::engine::command_registry::{CommandRegistry, CommandSpecView, texts};
use crate::engine::error::{AppError, ErrorView, validation_view};
use crate::engine::executor::{CommandExecutor, Runner};
use crate::engine::invocation::{
    check_result, entries_check, field_check, first_failure, flagged, guarded_payload,
    guarded_unit, limit_check, no_args, nonzero_check, optional_check, owner_repo_check,
    prefixed, push_arg, push_flagged, push_str_arg, repo_path, repo_path_string, require_entries,
    require_field, require_limit, require_nonzero, require_optional_text, require_owner_repo,
    run_payload, run_unit, slash, slash_join,
};
use crate::engine::observability::TraceContext;
use crate::engine::policy_guard::{PolicyGuard, RepoPermission, guard_outcome};
use crate::features::settings::dto::BranchProtection;
use crate::text::{bool_string, bool_text, concat, concat3, decimal, decimal_string};

verus! {

broadcast use vstd::string::group_string_axioms;

#[derive(Debug, Clone, Copy, PartialEq, Eq, Structural)]
pub enum CollaboratorPermission {
    Pull,
    Push,
    Admin,
    Maintain,
    Triage,
}

pub open spec fn collaborator_permission_value(p: CollaboratorPermission) -> Seq<char> {
    match p {
        CollaboratorPermission::Pull => "pull"@,
        CollaboratorPermission::Push => "push"@,
        CollaboratorPermission::Admin => "admin"@,
        CollaboratorPermission::Maintain => "maintain"@,
        CollaboratorPermission::Triage => "triage"@,
    }
}

impl CollaboratorPermission {
    fn as_api_value(self) -> (s: &'static str)
        ensures
            s@ == collaborator_permission_value(self),
    {
        match self {
            CollaboratorPermission::Pull => "pull",
            CollaboratorPermission::Push => "push",
            CollaboratorPermission::Admin => "admin",
            CollaboratorPermission::Maintain => "maintain",
            CollaboratorPermission::Triage => "triage",
        }
    }
}

#[derive(Debug, Clone, Copy, PartialEq, Eq, Structural)]
pub enum SecretApp {
    Actions,
    Dependabot,
    Codespaces,
}

pub open spec fn secret_app_value(a: SecretApp) -> Seq<char> {
    match a {
        SecretApp::Actions => "actions"@,
        SecretApp::Dependabot => "dependabot"@,
        SecretApp::Codespaces => "codespaces"@,
    }
}

impl SecretApp {
    fn as_flag_value(self) -> (s: &'static str)
        ensures
            s@ == secret_app_value(self),
    {
        match self {
            SecretApp::Actions => "actions",
            SecretApp::Dependabot => "dependabot",
            SecretApp::Codespaces => "codespaces",
        }
    }
}

#[derive(Debug, Clone, Copy, PartialEq, Eq, Structural)]
pub enum WebhookContentType {
    Json,
    Form,
}

pub open spec fn content_type_value(c: WebhookContentType) -> Seq<char> {
    match c {
        WebhookContentType::Json => "json"@,
        WebhookContentType::Form => "form"@,
    }
}

impl WebhookContentType {
    fn as_api_value(self) -> (s: &'static str)
        ensures
            s@ == content_type_value(self),
    {
        match self {
            WebhookContentType::Json => "json",
            WebhookContentType::Form => "form",
        }
    }
}

#[derive(Debug, Clone, PartialEq, Eq)]
pub struct AddCollaboratorInput {
    pub owner: String,
    pub repo: String,
    pub username: String,
    pub permission: CollaboratorPermission,
}

impl AddCollaboratorInput {
    pub open spec fn invalid(&self) -> Option<ErrorView> {
        first_failure(
            owner_repo_check(self.owner@, self.repo@),
            field_check("username"@, self.username@),
        )
    }

    pub fn validate(&self) -> (r: Result<(), AppError>)
        ensures
            check_result(self.invalid(), r),
    {
        require_owner_repo(self.owner.as_str(), self.repo.as_str())?;
        require_field("username", self.username.as_str())
    }
}

#[derive(Debug, Clone, PartialEq, Eq)]
pub struct RemoveCollaboratorInput {
    pub owner: String,
    pub repo: String,
    pub username: String,
}

impl RemoveCollaboratorInput {
    pub open spec fn invalid(&self) -> Option<ErrorView> {
        first_failure(
            owner_repo_check(self.owner@, self.repo@),
            field_check("username"@, self.username@),
        )
    }

    pub fn validate(&self) -> (r: Result<(), AppError>)
        ensures
            check_result(self.invalid(), r),
    {
        require_owner_repo(self.owner.as_str(), self.repo.as_str())?;
        require_field("username", self.username.as_str())
    }
}

#[derive(Debug, Clone, PartialEq, Eq)]
pub struct SetSecretInput {
    pub owner: String,
    pub repo: String,
    pub name: String,
    pub value: String,
    pub app: Option<SecretApp>,
}

impl SetSecretInput {
    pub open spec fn invalid(&self) -> Option<ErrorView> {
        first_failure(
            owner_repo_check(self.owner@, self.repo@),
            first_failure(
                field_check("name"@, self.name@),
                field_check("value"@, self.value@),
            ),
        )
    }

    pub fn validate(&self) -> (r: Result<(), AppError>)
        ensures
            check_result(self.invalid(), r),
    {
        require_owner_repo(self.owner.as_str(), self.repo.as_str())?;
        require_field("name", self.name.as_str())?;
        require_field("value", self.value.as_str())
    }
}

#[derive(Debug, Clone, PartialEq, Eq)]
pub struct DeleteSecretInput {
    pub owner: String,
    pub repo: String,
    pub name: String,
    pub app: Option<SecretApp>,
}

impl DeleteSecretInput {
    pub open spec fn invalid(&self) -> Option<ErrorView> {
        first_failure(owner_repo_check(self.owner@, self.repo@), field_check("name"@, self.name@))
    }

    pub fn validate(&self) -> (r: Result<(), AppError>)
        ensures
            check_result(self.invalid(), r),
    {
        require_owner_repo(self.owner.as_str(), self.repo.as_str())?;
        require_field("name", self.name.as_str())
    }
}

#[derive(Debug, Clone, PartialEq, Eq)]
pub struct SetVariableInput {
    pub owner: String,
    pub repo: String,
    pub name: String,
    pub value: String,
}

impl SetVariableInput {
    pub open spec fn invalid(&self) -> Option<ErrorView> {
        first_failure(
            owner_repo_check(self.owner@, self.repo@),
            first_failure(
                field_check("name"@, self.name@),
                field_check("value"@, self.value@),
            ),
        )
    }

    pub fn validate(&self) -> (r: Result<(), AppError>)
        ensures
            check_result(self.invalid(), r),
    {
        require_owner_repo(self.owner.as_str(), self.repo.as_str())?;
        require_field("name", self.name.as_str())?;
        require_field("value", self.value.as_str())
    }
}

#[derive(Debug, Clone, PartialEq, Eq)]
pub struct DeleteVariableInput {
    pub owner: String,
    pub repo: String,
    pub name: String,
}

impl DeleteVariableInput {
    pub open spec fn invalid(&self) -> Option<ErrorView> {
        first_failure(owner_repo_check(self.owner@, self.repo@), field_check("name"@, self.name@))
    }

    pub fn validate(&self) -> (r: Result<(), AppError>)
        ensures
            check_result(self.invalid(), r),
    {
        require_owner_repo(self.owner.as_str(), self.repo.as_str())?;
        require_field("name", self.name.as_str())
    }
}

#[derive(Debug, Clone, PartialEq, Eq)]
pub struct CreateWebhookInput {
    pub owner: String,
    pub repo: String,
    pub target_url: String,
    pub events: Vec<String>,
    pub active: bool,
    pub content_type: WebhookContentType,
    pub secret: Option<String>,
}

impl CreateWebhookInput {
    pub open spec fn invalid(&self) -> Option<ErrorView> {
        first_failure(
            owner_repo_check(self.owner@, self.repo@),
            first_failure(
                field_check("target_url"@, self.target_url@),
                first_failure(
                    if self.events@.len() == 0 {
                        Some(validation_view("events must contain at least one event"@))
                    } else {
                        None
                    },
                    first_failure(
                        entries_check(self.events@, "events must not contain empty values"@),
                        optional_check(self.secret, "secret must not be empty when provided"@),
                    ),
                ),
            ),
        )
    }

    pub fn validate(&self) -> (r: Result<(), AppError>)
        ensures
            check_result(self.invalid(), r),
    {
        require_owner_repo(self.owner.as_str(), self.repo.as_str())?;
        require_field("target_url", self.target_url.as_str())?;
        if self.events.len() == 0 {
            return Err(AppError::validation("events must contain at least one event"));
        }
        require_entries(&self.events, "events must not contain empty values")?;
        require_optional_text(&self.secret, "secret must not be empty when provided")
    }
}

#[derive(Debug, Clone, PartialEq, Eq)]
pub struct PingWebhookInput {
    pub owner: String,
    pub repo: String,
    pub hook_id: u64,
}

impl PingWebhookInput {
    pub open spec fn invalid(&self) -> Option<ErrorView> {
        first_failure(
            owner_repo_check(self.owner@, self.repo@),
            nonzero_check(self.hook_id as int, "hook_id must be greater than 0"@),
        )
    }

    pub fn validate(&self) -> (r: Result<(), AppError>)
        ensures
            check_result(self.invalid(), r),
    {
        require_owner_repo(self.owner.as_str(), self.repo.as_str())?;
        require_nonzero(self.hook_id, "hook_id must be greater than 0")
    }
}

#[derive(Debug, Clone, PartialEq, Eq)]
pub struct DeleteWebhookInput {
    pub owner: String,
    pub repo: String,
    pub hook_id: u64,
}

impl DeleteWebhookInput {
    pub open spec fn invalid(&self) -> Option<ErrorView> {
        first_failure(
            owner_repo_check(self.owner@, self.repo@),
            nonzero_check(self.hook_id as int, "hook_id must be greater than 0"@),
        )
    }

    pub fn validate(&self) -> (r: Result<(), AppError>)
        ensures
            check_result(self.invalid(), r),
    {
        require_owner_repo(self.owner.as_str(), self.repo.as_str())?;
        require_nonzero(self.hook_id, "hook_id must be greater than 0")
    }
}

#[derive(Debug, Clone, PartialEq, Eq)]
pub struct BranchProtectionTarget {
    pub owner: String,
    pub repo: String,
    pub branch: String,
}

impl BranchProtectionTarget {
    pub open spec fn invalid(&self) -> Option<ErrorView> {
        first_failure(
            owner_repo_check(self.owner@, self.repo@),
            field_check("branch"@, self.branch@),
        )
    }

    pub fn validate(&self) -> (r: Result<(), AppError>)
        ensures
            check_result(self.invalid(), r),
    {
        require_owner_repo(self.owner.as_str(), self.repo.as_str())?;
        require_field("branch", self.branch.as_str())
    }
}

#[derive(Debug, Clone, PartialEq, Eq)]
pub struct UpdateBranchProtectionInput {
    pub owner: String,
    pub repo: String,
    pub branch: String,
    pub enforce_admins: Option<bool>,
    pub dismiss_stale_reviews: Option<bool>,
    pub require_code_owner_reviews: Option<bool>,
    pub required_approving_review_count: Option<u8>,
}

impl UpdateBranchProtectionInput {
    pub open spec fn has_any_change(&self) -> bool {
        ||| self.enforce_admins is Some
        ||| self.dismiss_stale_reviews is Some
        ||| self.require_code_owner_reviews is Some
        ||| self.required_approving_review_count is Some
    }

    pub open spec fn invalid(&self) -> Option<ErrorView> {
        first_failure(
            owner_repo_check(self.owner@, self.repo@),
            first_failure(
                field_check("branch"@, self.branch@),
                if !self.has_any_change() {
                    Some(validation_view("at least one branch protection field must be provided"@))
                } else if self.required_approving_review_count matches Some(c) && c > 6 {
                    Some(validation_view("required_approving_review_count must be between 0 and 6"@))
                } else {
                    None
                },
            ),
        )
    }

    pub fn validate(&self) -> (r: Result<(), AppError>)
        ensures
            check_result(self.invalid(), r),
    {
        require_owner_repo(self.owner.as_str(), self.repo.as_str())?;
        require_field("branch", self.branch.as_str())?;
        let has_any_change = self.enforce_admins.is_some() || self.dismiss_stale_reviews.is_some()
            || self.require_code_owner_reviews.is_some()
            || self.required_approving_review_count.is_some();
        if !has_any_change {
            return Err(AppError::validation("at least one branch protection field must be provided"));
        }
        match self.required_approving_review_count {
            Some(count) => {
                if count > 6 {
                    return Err(
                        AppError::validation("required_approving_review_count must be between 0 and 6"),
                    );
                }
            },
            None => {},
        }
        Ok(())
    }
}

#[derive(Debug, Clone, PartialEq, Eq)]
pub struct AddDeployKeyInput {
    pub owner: String,
    pub repo: String,
    pub title: String,
    pub key: String,
    pub read_only: bool,
}

impl AddDeployKeyInput {
    pub open spec fn invalid(&self) -> Option<ErrorView> {
        first_failure(
            owner_repo_check(self.owner@, self.repo@),
            first_failure(field_check("title"@, self.title@), field_check("key"@, self.key@)),
        )
    }

    pub fn validate(&self) -> (r: Result<(), AppError>)
        ensures
            check_result(self.invalid(), r),
    {
        require_owner_repo(self.owner.as_str(), self.repo.as_str())?;
        require_field("title", self.title.as_str())?;
        require_field("key", self.key.as_str())
    }
}

#[derive(Debug, Clone, PartialEq, Eq)]
pub struct DeleteDeployKeyInput {
    pub owner: String,
    pub repo: String,
    pub key_id: u64,
}

impl DeleteDeployKeyInput {
    pub open spec fn invalid(&self) -> Option<ErrorView> {
        first_failure(
            owner_repo_check(self.owner@, self.repo@),
            nonzero_check(self.key_id as int, "key_id must be greater than 0"@),
        )
    }

    pub fn validate(&self) -> (r: Result<(), AppError>)
        ensures
            check_result(self.invalid(), r),
    {
        require_owner_repo(self.owner.as_str(), self.repo.as_str())?;
        require_nonzero(self.key_id, "key_id must be greater than 0")
    }
}

/// `["--app", app]` when an application is named.
pub open spec fn app_args(app: Option<SecretApp>) -> Seq<Seq<char>> {
    match app {
        Some(a) => seq!["--app"@, secret_app_value(a)],
        None => Seq::empty(),
    }
}

fn push_app(args: &mut Vec<String>, app: Option<SecretApp>)
    ensures
        texts(final(args)@) == texts(old(args)@) + app_args(app),
{
    let ghost start = texts(args@);
    match app {
        Some(a) => {
            push_str_arg(args, "--app");
            push_str_arg(args, a.as_flag_value());
            assert(texts(args@) =~= start + app_args(app));
        },
        None => {
            assert(texts(args@) =~= start + app_args(app));
        },
    }
}

pub open spec fn collaborator_path(owner: Seq<char>, repo: Seq<char>, username: Seq<char>) -> Seq<
    char,
> {
    repo_path(owner, repo, "/collaborators/"@ + username)
}

pub open spec fn add_collaborator_args(input: AddCollaboratorInput) -> Seq<Seq<char>> {
    seq![
        collaborator_path(input.owner@, input.repo@, input.username@),
        "-f"@,
        "permission="@ + collaborator_permission_value(input.permission),
    ]
}

pub open spec fn set_secret_args(input: SetSecretInput) -> Seq<Seq<char>> {
    seq![input.name@, "--repo"@, slash(input.owner@, input.repo@), "--body"@, input.value@]
        + app_args(input.app)
}

pub open spec fn delete_secret_args(input: DeleteSecretInput) -> Seq<Seq<char>> {
    seq![input.name@, "--repo"@, slash(input.owner@, input.repo@)] + app_args(input.app)
}

pub open spec fn set_variable_args(input: SetVariableInput) -> Seq<Seq<char>> {
    seq![input.name@, "--repo"@, slash(input.owner@, input.repo@), "--body"@, input.value@]
}

/// `["-f", "config[secret]={secret}"]` when a secret is given.
pub open spec fn secret_args(secret: Option<String>) -> Seq<Seq<char>> {
    match secret {
        Some(s) => seq!["-f"@, "config[secret]="@ + s@],
        None => Seq::empty(),
    }
}

pub open spec fn create_webhook_args(input: CreateWebhookInput) -> Seq<Seq<char>> {
    seq![
        repo_path(input.owner@, input.repo@, "/hooks"@),
        "-f"@,
        "name=web"@,
        "-f"@,
        "config[url]="@ + input.target_url@,
        "-f"@,
        "config[content_type]="@ + content_type_value(input.content_type),
        "-F"@,
        "active="@ + bool_text(input.active),
    ] + secret_args(input.secret) + flagged("-f"@, prefixed("events[]="@, texts(input.events@)))
}

pub open spec fn protection_path(owner: Seq<char>, repo: Seq<char>, branch: Seq<char>) -> Seq<char> {
    repo_path(owner, repo, "/branches/"@ + branch + "/protection"@)
}

/// A value given in the update, else the one currently in force.
pub open spec fn merged<T>(given: Option<T>, current: Option<T>) -> Option<T> {
    match given {
        Some(v) => Some(v),
        None => current,
    }
}

/// The setting that an update writes for admin enforcement.
pub open spec fn merged_enforce_admins(
    input: UpdateBranchProtectionInput,
    current: BranchProtection,
) -> bool {
    match merged(
        input.enforce_admins,
        match current.enforce_admins {
            Some(e) => e.enabled,
            None => None,
        },
    ) {
        Some(v) => v,
        None => false,
    }
}

pub open spec fn merged_dismiss_stale(
    input: UpdateBranchProtectionInput,
    current: BranchProtection,
) -> bool {
    match merged(
        input.dismiss_stale_reviews,
        match current.required_pull_request_reviews {
            Some(r) => r.dismiss_stale_reviews,
            None => None,
        },
    ) {
        Some(v) => v,
        None => false,
    }
}

pub open spec fn merged_code_owner(input: UpdateBranchProtectionInput, current: BranchProtection) -> bool {
    match merged(
        input.require_code_owner_reviews,
        match current.required_pull_request_reviews {
            Some(r) => r.require_code_owner_reviews,
            None => None,
        },
    ) {
        Some(v) => v,
        None => false,
    }
}

pub open spec fn merged_review_count(input: UpdateBranchProtectionInput, current: BranchProtection) -> u8 {
    match merged(
        input.required_approving_review_count,
        match current.required_pull_request_reviews {
            Some(r) => r.required_approving_review_count,
            None => None,
        },
    ) {
        Some(v) => v,
        None => 0,
    }
}

/// The arguments of a protection update: each setting of the update where it
/// is given, else the one in `current`, else `false` (0 reviews).
pub open spec fn update_protection_args(
    input: UpdateBranchProtectionInput,
    current: BranchProtection,
) -> Seq<Seq<char>> {
    seq![
        protection_path(input.owner@, input.repo@, input.branch@),
        "-F"@,
        "required_status_checks=null"@,
        "-F"@,
        "restrictions=null"@,
        "-F"@,
        "enforce_admins="@ + bool_text(merged_enforce_admins(input, current)),
        "-F"@,
        "required_pull_request_reviews[dismiss_stale_reviews]="@ + bool_text(
            merged_dismiss_stale(input, current),
        ),
        "-F"@,
        "required_pull_request_reviews[require_code_owner_reviews]="@ + bool_text(
            merged_code_owner(input, current),
        ),
        "-F"@,
        "required_pull_request_reviews[required_approving_review_count]="@ + decimal(
            merged_review_count(input, current) as nat,
        ),
    ]
}

pub open spec fn add_deploy_key_args(input: AddDeployKeyInput) -> Seq<Seq<char>> {
    seq![
        repo_path(input.owner@, input.repo@, "/keys"@),
        "-f"@,
        "title="@ + input.title@,
        "-f"@,
        "key="@ + input.key@,
        "-F"@,
        "read_only="@ + bool_text(input.read_only),
    ]
}

pub struct SettingsService<R: Runner> {
    registry: CommandRegistry,
    executor: CommandExecutor<R>,
    policy_guard: PolicyGuard,
}

impl<R: Runner> SettingsService<R> {
    /// The commands this service may run.
    pub closed spec fn commands(&self) -> Seq<CommandSpecView> {
        self.registry@
    }

    /// Whether destructive commands are skipped.
    pub closed spec fn safe_mode(&self) -> bool {
        self.executor.safe_mode()
    }

    /// The executor that runs the commands.
    pub closed spec fn execution(&self) -> CommandExecutor<R> {
        self.executor
    }

    pub fn new(registry: CommandRegistry, executor: CommandExecutor<R>) -> (s: Self)
        ensures
            s.commands() == registry@,
            s.safe_mode() == executor.safe_mode(),
            s.execution() == executor,
    {
        SettingsService { registry, executor, policy_guard: PolicyGuard }
    }

    /// An admin read of `repos/{owner}/{repo}{tail}`; the result is the
    /// command's JSON output.
    fn admin_read(
        &self,
        permission: RepoPermission,
        id: &str,
        owner: &str,
        repo: &str,
        tail: &str,
        trace: &TraceContext,
    ) -> (r: Result<String, AppError>)
        ensures
            guarded_payload(
                RepoPermission::Admin,
                permission,
                id@,
                owner_repo_check(owner@, repo@),
                self.execution(),
                self.commands(),
                seq![repo_path(owner@, repo@, tail@)],
                r,
            ),
    {
        self.policy_guard.require(RepoPermission::Admin, permission, id)?;
        require_owner_repo(owner, repo)?;
        let mut args = no_args();
        push_arg(&mut args, repo_path_string(owner, repo, tail));
        assert(texts(args@) =~= seq![repo_path(owner@, repo@, tail@)]);
        run_payload(&self.registry, &self.executor, id, &args, trace)
    }

    pub fn list_collaborators(
        &self,
        permission: RepoPermission,
        owner: &str,
        repo: &str,
        trace: &TraceContext,
    ) -> (r: Result<String, AppError>)
        ensures
            guarded_payload(
                RepoPermission::Admin,
                permission,
                "settings.collaborators.list"@,
                owner_repo_check(owner@, repo@),
                self.execution(),
                self.commands(),
                seq![repo_path(owner@, repo@, "/collaborators"@)],
                r,
            ),
    {
        self.admin_read(permission, "settings.collaborators.list", owner, repo, "/collaborators", trace)
    }

    pub fn add_collaborator(
        &self,
        permission: RepoPermission,
        input: &AddCollaboratorInput,
        trace: &TraceContext,
    ) -> (r: Result<(), AppError>)
        ensures
            guarded_unit(
                RepoPermission::Admin,
                permission,
                "settings.collaborators.add"@,
                input.invalid(),
                self.execution(),
                self.commands(),
                add_collaborator_args(*input),
                r,
            ),
    {
        self.policy_guard.require(RepoPermission::Admin, permission, "settings.collaborators.add")?;
        input.validate()?;
        let tail = concat("/collaborators/", input.username.as_str());
        let mut args = no_args();
        push_arg(&mut args, repo_path_string(input.owner.as_str(), input.repo.as_str(), tail.as_str()));
        push_str_arg(&mut args, "-f");
        push_arg(&mut args, concat("permission=", input.permission.as_api_value()));
        assert(texts(args@) =~= add_collaborator_args(*input));
        run_unit(&self.registry, &self.executor, "settings.collaborators.add", &args, trace)
    }

    pub fn remove_collaborator(
        &self,
        permission: RepoPermission,
        input: &RemoveCollaboratorInput,
        trace: &TraceContext,
    ) -> (r: Result<(), AppError>)
        ensures
            guarded_unit(
                RepoPermission::Admin,
                permission,
                "settings.collaborators.remove"@,
                input.invalid(),
                self.execution(),
                self.commands(),
                seq![collaborator_path(input.owner@, input.repo@, input.username@)],
                r,
            ),
    {
        self.policy_guard.require(RepoPermission::Admin, permission, "settings.collaborators.remove")?;
        input.validate()?;
        let tail = concat("/collaborators/", input.username.as_str());
        let mut args = no_args();
        push_arg(&mut args, repo_path_string(input.owner.as_str(), input.repo.as_str(), tail.as_str()));
        assert(texts(args@) =~= seq![collaborator_path(input.owner@, input.repo@, input.username@)]);
        run_unit(&self.registry, &self.executor, "settings.collaborators.remove", &args, trace)
    }

    pub fn list_secrets(
        &self,
        permission: RepoPermission,
        owner: &str,
        repo: &str,
        app: Option<SecretApp>,
        trace: &TraceContext,
    ) -> (r: Result<String, AppError>)
        ensures
            guarded_payload(
                RepoPermission::Admin,
                permission,
                "settings.secrets.list"@,
                owner_repo_check(owner@, repo@),
                self.execution(),
                self.commands(),
                seq!["--repo"@, slash(owner@, repo@)] + app_args(app),
                r,
            ),
    {
        self.policy_guard.require(RepoPermission::Admin, permission, "settings.secrets.list")?;
        require_owner_repo(owner, repo)?;
        let mut args = no_args();
        push_str_arg(&mut args, "--repo");
        push_arg(&mut args, slash_join(owner, repo));
        push_app(&mut args, app);
        assert(texts(args@) =~= seq!["--repo"@, slash(owner@, repo@)] + app_args(app));
        run_payload(&self.registry, &self.executor, "settings.secrets.list", &args, trace)
    }

    pub fn set_secret(
        &self,
        permission: RepoPermission,
        input: &SetSecretInput,
        trace: &TraceContext,
    ) -> (r: Result<(), AppError>)
        ensures
            guarded_unit(
                RepoPermission::Admin,
                permission,
                "settings.secrets.set"@,
                input.invalid(),
                self.execution(),
                self.commands(),
                set_secret_args(*input),
                r,
            ),
    {
        self.policy_guard.require(RepoPermission::Admin, permission, "settings.secrets.set")?;
        input.validate()?;
        let mut args = no_args();
        push_str_arg(&mut args, input.name.as_str());
        push_str_arg(&mut args, "--repo");
        push_arg(&mut args, slash_join(input.owner.as_str(), input.repo.as_str()));
        push_str_arg(&mut args, "--body");
        push_str_arg(&mut args, input.value.as_str());
        push_app(&mut args, input.app);
        assert(texts(args@) =~= set_secret_args(*input));
        run_unit(&self.registry, &self.executor, "settings.secrets.set", &args, trace)
    }

    pub fn delete_secret(
        &self,
        permission: RepoPermission,
        input: &DeleteSecretInput,
        trace: &TraceContext,
    ) -> (r: Result<(), AppError>)
        ensures
            guarded_unit(
                RepoPermission::Admin,
                permission,
                "settings.secrets.delete"@,
                input.invalid(),
                self.execution(),
                self.commands(),
                delete_secret_args(*input),
                r,
            ),
    {
        self.policy_guard.require(RepoPermission::Admin, permission, "settings.secrets.delete")?;
        input.validate()?;
        let mut args = no_args();
        push_str_arg(&mut args, input.name.as_str());
        push_str_arg(&mut args, "--repo");
        push_arg(&mut args, slash_join(input.owner.as_str(), input.repo.as_str()));
        push_app(&mut args, input.app);
        assert(texts(args@) =~= delete_secret_args(*input));
        run_unit(&self.registry, &self.executor, "settings.secrets.delete", &args, trace)
    }

    pub fn list_variables(
        &self,
        permission: RepoPermission,
        owner: &str,
        repo: &str,
        trace: &TraceContext,
    ) -> (r: Result<String, AppError>)
        ensures
            guarded_payload(
                RepoPermission::Admin,
                permission,
                "settings.variables.list"@,
                owner_repo_check(owner@, repo@),
                self.execution(),
                self.commands(),
                seq!["--repo"@, slash(owner@, repo@)],
                r,
            ),
    {
        self.policy_guard.require(RepoPermission::Admin, permission, "settings.variables.list")?;
        require_owner_repo(owner, repo)?;
        let mut args = no_args();
        push_str_arg(&mut args, "--repo");
        push_arg(&mut args, slash_join(owner, repo));
        assert(texts(args@) =~= seq!["--repo"@, slash(owner@, repo@)]);
        run_payload(&self.registry, &self.executor, "settings.variables.list", &args, trace)
    }

    pub fn set_variable(
        &self,
        permission: RepoPermission,
        input: &SetVariableInput,
        trace: &TraceContext,
    ) -> (r: Result<(), AppError>)
        ensures
            guarded_unit(
                RepoPermission::Admin,
                permission,
                "settings.variables.set"@,
                input.invalid(),
                self.execution(),
                self.commands(),
                set_variable_args(*input),
                r,
            ),
    {
        self.policy_guard.require(RepoPermission::Admin, permission, "settings.variables.set")?;
        input.validate()?;
        let mut args = no_args();
        push_str_arg(&mut args, input.name.as_str());
        push_str_arg(&mut args, "--repo");
        push_arg(&mut args, slash_join(input.owner.as_str(), input.repo.as_str()));
        push_str_arg(&mut args, "--body");
        push_str_arg(&mut args, input.value.as_str());
        assert(texts(args@) =~= set_variable_args(*input));
        run_unit(&self.registry, &self.executor, "settings.variables.set", &args, trace)
    }

    pub fn delete_variable(
        &self,
        permission: RepoPermission,
        input: &DeleteVariableInput,
        trace: &TraceContext,
    ) -> (r: Result<(), AppError>)
        ensures
            guarded_unit(
                RepoPermission::Admin,
                permission,
                "settings.variables.delete"@,
                input.invalid(),
                self.execution(),
                self.commands(),
                seq![input.name@, "--repo"@, slash(input.owner@, input.repo@)],
                r,
            ),
    {
        self.policy_guard.require(RepoPermission::Admin, permission, "settings.variables.delete")?;
        input.validate()?;
        let mut args = no_args();
        push_str_arg(&mut args, input.name.as_str());
        push_str_arg(&mut args, "--repo");
        push_arg(&mut args, slash_join(input.owner.as_str(), input.repo.as_str()));
        assert(texts(args@) =~= seq![input.name@, "--repo"@, slash(input.owner@, input.repo@)]);
        run_unit(&self.registry, &self.executor, "settings.variables.delete", &args, trace)
    }

    pub fn list_webhooks(
        &self,
        permission: RepoPermission,
        owner: &str,
        repo: &str,
        trace: &TraceContext,
    ) -> (r: Result<String, AppError>)
        ensures
            guarded_payload(
                RepoPermission::Admin,
                permission,
                "settings.webhooks.list"@,
                owner_repo_check(owner@, repo@),
                self.execution(),
                self.commands(),
                seq![repo_path(owner@, repo@, "/hooks"@)],
                r,
            ),
    {
        self.admin_read(permission, "settings.webhooks.list", owner, repo, "/hooks", trace)
    }

    pub fn create_webhook(
        &self,
        permission: RepoPermission,
        input: &CreateWebhookInput,
        trace: &TraceContext,
    ) -> (r: Result<(), AppError>)
        ensures
            guarded_unit(
                RepoPermission::Admin,
                permission,
                "settings.webhooks.create"@,
                input.invalid(),
                self.execution(),
                self.commands(),
                create_webhook_args(*input),
                r,
            ),
    {
        self.policy_guard.require(RepoPermission::Admin, permission, "settings.webhooks.create")?;
        input.validate()?;
        let mut args = no_args();
        push_arg(&mut args, repo_path_string(input.owner.as_str(), input.repo.as_str(), "/hooks"));
        push_str_arg(&mut args, "-f");
        push_str_arg(&mut args, "name=web");
        push_str_arg(&mut args, "-f");
        push_arg(&mut args, concat("config[url]=", input.target_url.as_str()));
        push_str_arg(&mut args, "-f");
        push_arg(&mut args, concat("config[content_type]=", input.content_type.as_api_value()));
        push_str_arg(&mut args, "-F");
        let active = bool_string(input.active);
        push_arg(&mut args, concat("active=", active.as_str()));
        let ghost head = texts(args@);
        match &input.secret {
            Some(secret) => {
                push_str_arg(&mut args, "-f");
                push_arg(&mut args, concat("config[secret]=", secret.as_str()));
            },
            None => {},
        }
        assert(texts(args@) =~= head + secret_args(input.secret));
        push_flagged(&mut args, "-f", "events[]=", &input.events);
        assert(texts(args@) =~= create_webhook_args(*input));
        run_unit(&self.registry, &self.executor, "settings.webhooks.create", &args, trace)
    }

    pub fn ping_webhook(
        &self,
        permission: RepoPermission,
        input: &PingWebhookInput,
        trace: &TraceContext,
    ) -> (r: Result<(), AppError>)
        ensures
            guarded_unit(
                RepoPermission::Admin,
                permission,
                "settings.webhooks.ping"@,
                input.invalid(),
                self.execution(),
                self.commands(),
                seq![
                    repo_path(
                        input.owner@,
                        input.repo@,
                        "/hooks/"@ + decimal(input.hook_id as nat) + "/pings"@,
                    ),
                ],
                r,
            ),
    {
        self.policy_guard.require(RepoPermission::Admin, permission, "settings.webhooks.ping")?;
        input.validate()?;
        let id = decimal_string(input.hook_id);
        let tail = concat3("/hooks/", id.as_str(), "/pings");
        let mut args = no_args();
        push_arg(&mut args, repo_path_string(input.owner.as_str(), input.repo.as_str(), tail.as_str()));
        assert(texts(args@) =~= seq![
            repo_path(input.owner@, input.repo@, "/hooks/"@ + decimal(input.hook_id as nat) + "/pings"@),
        ]);
        run_unit(&self.registry, &self.executor, "settings.webhooks.ping", &args, trace)
    }

    pub fn delete_webhook(
        &self,
        permission: RepoPermission,
        input: &DeleteWebhookInput,
        trace: &TraceContext,
    ) -> (r: Result<(), AppError>)
        ensures
            guarded_unit(
                RepoPermission::Admin,
                permission,
                "settings.webhooks.delete"@,
                input.invalid(),
                self.execution(),
                self.commands(),
                seq![repo_path(input.owner@, input.repo@, "/hooks/"@ + decimal(input.hook_id as nat))],
                r,
            ),
    {
        self.policy_guard.require(RepoPermission::Admin, permission, "settings.webhooks.delete")?;
        input.validate()?;
        let id = decimal_string(input.hook_id);
        let tail = concat("/hooks/", id.as_str());
        let mut args = no_args();
        push_arg(&mut args, repo_path_string(input.owner.as_str(), input.repo.as_str(), tail.as_str()));
        assert(texts(args@) =~= seq![
            repo_path(input.owner@, input.repo@, "/hooks/"@ + decimal(input.hook_id as nat)),
        ]);
        run_unit(&self.registry, &self.executor, "settings.webhooks.delete", &args, trace)
    }

    /// Reads the protection of a branch; the result is the command's JSON
    /// output, which an update reads the current settings from.
    pub fn get_branch_protection(
        &self,
        permission: RepoPermission,
        target: &BranchProtectionTarget,
        trace: &TraceContext,
    ) -> (r: Result<String, AppError>)
        ensures
            guarded_payload(
                RepoPermission::Admin,
                permission,
                "settings.branch_protection.get"@,
                target.invalid(),
                self.execution(),
                self.commands(),
                seq![protection_path(target.owner@, target.repo@, target.branch@)],
                r,
            ),
    {
        self.policy_guard.require(RepoPermission::Admin, permission, "settings.branch_protection.get")?;
        target.validate()?;
        let tail = concat3("/branches/", target.branch.as_str(), "/protection");
        let mut args = no_args();
        push_arg(&mut args, repo_path_string(target.owner.as_str(), target.repo.as_str(), tail.as_str()));
        assert(texts(args@) =~= seq![protection_path(target.owner@, target.repo@, target.branch@)]);
        run_payload(&self.registry, &self.executor, "settings.branch_protection.get", &args, trace)
    }

    /// The checks that updating the protection of a branch makes before it
    /// reads or writes anything: the admin guard, then the input checks.
    pub fn check_branch_protection_update(
        &self,
        permission: RepoPermission,
        input: &UpdateBranchProtectionInput,
    ) -> (r: Result<(), AppError>)
        ensures
            check_result(
                first_failure(
                    guard_outcome(
                        RepoPermission::Admin,
                        permission,
                        "settings.branch_protection.update"@,
                    ),
                    input.invalid(),
                ),
                r,
            ),
    {
        self.policy_guard.require(
            RepoPermission::Admin,
            permission,
            "settings.branch_protection.update",
        )?;
        input.validate()
    }

    /// Updates the protection of a branch from the settings `current` in force
    /// (those `get_branch_protection` reports): each setting the update gives
    /// replaces the current one, the others are written back unchanged.
    pub fn update_branch_protection(
        &self,
        permission: RepoPermission,
        input: &UpdateBranchProtectionInput,
        current: &BranchProtection,
        trace: &TraceContext,
    ) -> (r: Result<(), AppError>)
        ensures
            guarded_unit(
                RepoPermission::Admin,
                permission,
                "settings.branch_protection.update"@,
                input.invalid(),
                self.execution(),
                self.commands(),
                update_protection_args(*input, *current),
                r,
            ),
    {
        self.policy_guard.require(
            RepoPermission::Admin,
            permission,
            "settings.branch_protection.update",
        )?;
        input.validate()?;
        let current_enforce = match &current.enforce_admins {
            Some(value) => value.enabled,
            None => None,
        };
        let (current_dismiss, current_code_owner, current_count) =
            match &current.required_pull_request_reviews {
            Some(value) => (
                value.dismiss_stale_reviews,
                value.require_code_owner_reviews,
                value.required_approving_review_count,
            ),
            None => (None, None, None),
        };
        let enforce_admins = match input.enforce_admins {
            Some(v) => v,
            None => match current_enforce {
                Some(v) => v,
                None => false,
            },
        };
        let dismiss_stale_reviews = match input.dismiss_stale_reviews {
            Some(v) => v,
            None => match current_dismiss {
                Some(v) => v,
                None => false,
            },
        };
        let require_code_owner_reviews = match input.require_code_owner_reviews {
            Some(v) => v,
            None => match current_code_owner {
                Some(v) => v,
                None => false,
            },
        };
        let required_approving_review_count = match input.required_approving_review_count {
            Some(v) => v,
            None => match current_count {
                Some(v) => v,
                None => 0,
            },
        };
        let tail = concat3("/branches/", input.branch.as_str(), "/protection");
        let mut args = no_args();
        push_arg(&mut args, repo_path_string(input.owner.as_str(), input.repo.as_str(), tail.as_str()));
        push_str_arg(&mut args, "-F");
        push_str_arg(&mut args, "required_status_checks=null");
        push_str_arg(&mut args, "-F");
        push_str_arg(&mut args, "restrictions=null");
        push_str_arg(&mut args, "-F");
        let v1 = bool_string(enforce_admins);
        push_arg(&mut args, concat("enforce_admins=", v1.as_str()));
        push_str_arg(&mut args, "-F");
        let v2 = bool_string(dismiss_stale_reviews);
        push_arg(
            &mut args,
            concat("required_pull_request_reviews[dismiss_stale_reviews]=", v2.as_str()),
        );
        push_str_arg(&mut args, "-F");
        let v3 = bool_string(require_code_owner_reviews);
        push_arg(
            &mut args,
            concat("required_pull_request_reviews[require_code_owner_reviews]=", v3.as_str()),
        );
        push_str_arg(&mut args, "-F");
        let v4 = decimal_string(required_approving_review_count as u64);
        push_arg(
            &mut args,
            concat("required_pull_request_reviews[required_approving_review_count]=", v4.as_str()),
        );
        assert(texts(args@) =~= update_protection_args(*input, *current));
        run_unit(&self.registry, &self.executor, "settings.branch_protection.update", &args, trace)
    }

    pub fn list_deploy_keys(
        &self,
        permission: RepoPermission,
        owner: &str,
        repo: &str,
        trace: &TraceContext,
    ) -> (r: Result<String, AppError>)
        ensures
            guarded_payload(
                RepoPermission::Admin,
                permission,
                "settings.deploy_keys.list"@,
                owner_repo_check(owner@, repo@),
                self.execution(),
                self.commands(),
                seq![repo_path(owner@, repo@, "/keys"@)],
                r,
            ),
    {
        self.admin_read(permission, "settings.deploy_keys.list", owner, repo, "/keys", trace)
    }

    pub fn add_deploy_key(
        &self,
        permission: RepoPermission,
        input: &AddDeployKeyInput,
        trace: &TraceContext,
    ) -> (r: Result<(), AppError>)
        ensures
            guarded_unit(
                RepoPermission::Admin,
                permission,
                "settings.deploy_keys.add"@,
                input.invalid(),
                self.execution(),
                self.commands(),
                add_deploy_key_args(*input),
                r,
            ),
    {
        self.policy_guard.require(RepoPermission::Admin, permission, "settings.deploy_keys.add")?;
        input.validate()?;
        let mut args = no_args();
        push_arg(&mut args, repo_path_string(input.owner.as_str(), input.repo.as_str(), "/keys"));
        push_str_arg(&mut args, "-f");
        push_arg(&mut args, concat("title=", input.title.as_str()));
        push_str_arg(&mut args, "-f");
        push_arg(&mut args, concat("key=", input.key.as_str()));
        push_str_arg(&mut args, "-F");
        let read_only = bool_string(input.read_only);
        push_arg(&mut args, concat("read_only=", read_only.as_str()));
        assert(texts(args@) =~= add_deploy_key_args(*input));
        run_unit(&self.registry, &self.executor, "settings.deploy_keys.add", &args, trace)
    }

    pub fn delete_deploy_key(
        &self,
        permission: RepoPermission,
        input: &DeleteDeployKeyInput,
        trace: &TraceContext,
    ) -> (r: Result<(), AppError>)
        ensures
            guarded_unit(
                RepoPermission::Admin,
                permission,
                "settings.deploy_keys.delete"@,
                input.invalid(),
                self.execution(),
                self.commands(),
                seq![repo_path(input.owner@, input.repo@, "/keys/"@ + decimal(input.key_id as nat))],
                r,
            ),
    {
        self.policy_guard.require(RepoPermission::Admin, permission, "settings.deploy_keys.delete")?;
        input.validate()?;
        let id = decimal_string(input.key_id);
        let tail = concat("/keys/", id.as_str());
        let mut args = no_args();
        push_arg(&mut args, repo_path_string(input.owner.as_str(), input.repo.as_str(), tail.as_str()));
        assert(texts(args@) =~= seq![
            repo_path(input.owner@, input.repo@, "/keys/"@ + decimal(input.key_id as nat)),
        ]);
        run_unit(&self.registry, &self.executor, "settings.deploy_keys.delete", &args, trace)
    }

    pub fn list_dependabot_alerts(
        &self,
        permission: RepoPermission,
        owner: &str,
        repo: &str,
        limit: u16,
        trace: &TraceContext,
    ) -> (r: Result<String, AppError>)
        ensures
            guarded_payload(
                RepoPermission::Admin,
                permission,
                "settings.dependabot_alerts.list"@,
                first_failure(owner_repo_check(owner@, repo@), limit_check(limit)),
                self.execution(),
                self.commands(),
                seq![repo_path(owner@, repo@, "/dependabot/alerts?per_page="@ + decimal(limit as nat))],
                r,
            ),
    {
        self.policy_guard.require(
            RepoPermission::Admin,
            permission,
            "settings.dependabot_alerts.list",
        )?;
        require_owner_repo(owner, repo)?;
        require_limit(limit)?;
        let count = decimal_string(limit as u64);
        let tail = concat("/dependabot/alerts?per_page=", count.as_str());
        let mut args = no_args();
        push_arg(&mut args, repo_path_string(owner, repo, tail.as_str()));
        assert(texts(args@) =~= seq![
            repo_path(owner@, repo@, "/dependabot/alerts?per_page="@ + decimal(limit as nat)),
        ]);
        run_payload(&self.registry, &self.executor, "settings.dependabot_alerts.list", &args, trace)
    }
}

} // verus!
