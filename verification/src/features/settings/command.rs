//! The settings commands as the front end calls them: each takes the request id
//! that traces it and forwards to the service.
use vstd::prelude::*;
use crate::engine::command_registry::CommandSpecView;
use crate::engine::error::AppError;
use crate::engine::executor::{CommandExecutor, Runner};
use crate::engine::observability::TraceContext;

use crate::engine::invocation::{first_failure, guarded_payload, guarded_unit, limit_check, owner_repo_check, repo_path, slash};
use crate::engine::policy_guard::{RepoPermission};
use crate::features::settings::dto::{BranchProtection};
use crate::features::settings::service::{AddCollaboratorInput, AddDeployKeyInput, BranchProtectionTarget, CreateWebhookInput, DeleteDeployKeyInput, DeleteSecretInput, DeleteVariableInput, DeleteWebhookInput, PingWebhookInput, RemoveCollaboratorInput, SecretApp, SetSecretInput, SetVariableInput, SettingsService, UpdateBranchProtectionInput, add_collaborator_args, add_deploy_key_args, app_args, collaborator_path, create_webhook_args, delete_secret_args, protection_path, set_secret_args, set_variable_args, update_protection_args};
use crate::text::{decimal};

verus! {

pub struct SettingsCommandHandler<R: Runner> {
    service: SettingsService<R>,
}

impl<R: Runner> SettingsCommandHandler<R> {
    /// The commands the service may run.
    pub closed spec fn commands(&self) -> Seq<CommandSpecView> {
        self.service.commands()
    }

    /// Whether destructive commands are skipped.
    pub closed spec fn safe_mode(&self) -> bool {
        self.service.safe_mode()
    }

    /// The executor that runs the commands.
    pub closed spec fn execution(&self) -> CommandExecutor<R> {
        self.service.execution()
    }

    pub fn new(service: SettingsService<R>) -> (h: Self)
        ensures
            h.commands() == service.commands(),
            h.safe_mode() == service.safe_mode(),
            h.execution() == service.execution(),
    {
        SettingsCommandHandler { service }
    }

    pub fn list_collaborators(
        &self,
        request_id: &str,
        permission: RepoPermission,
        owner: &str,
        repo: &str,
    ) -> (r: Result<String, AppError>)
        ensures
            guarded_payload(
                RepoPermission::Admin,
                permission,
                "settings.collaborators.list"@,
                owner_repo_check(owner@, repo@),
                self.execution(),
                self.commands(),
                seq![repo_path(owner@, repo@, "/collaborators"@)],
                r,
            ),
    {
        let trace = TraceContext::new(request_id);
        self.service.list_collaborators(permission, owner, repo, &trace)
    }

    pub fn add_collaborator(
        &self,
        request_id: &str,
        permission: RepoPermission,
        input: &AddCollaboratorInput,
    ) -> (r: Result<(), AppError>)
        ensures
            guarded_unit(
                RepoPermission::Admin,
                permission,
                "settings.collaborators.add"@,
                input.invalid(),
                self.execution(),
                self.commands(),
                add_collaborator_args(*input),
                r,
            ),
    {
        let trace = TraceContext::new(request_id);
        self.service.add_collaborator(permission, input, &trace)
    }

    pub fn remove_collaborator(
        &self,
        request_id: &str,
        permission: RepoPermission,
        input: &RemoveCollaboratorInput,
    ) -> (r: Result<(), AppError>)
        ensures
            guarded_unit(
                RepoPermission::Admin,
                permission,
                "settings.collaborators.remove"@,
                input.invalid(),
                self.execution(),
                self.commands(),
                seq![collaborator_path(input.owner@, input.repo@, input.username@)],
                r,
            ),
    {
        let trace = TraceContext::new(request_id);
        self.service.remove_collaborator(permission, input, &trace)
    }

    pub fn list_secrets(
        &self,
        request_id: &str,
        permission: RepoPermission,
        owner: &str,
        repo: &str,
        app: Option<SecretApp>,
    ) -> (r: Result<String, AppError>)
        ensures
            guarded_payload(
                RepoPermission::Admin,
                permission,
                "settings.secrets.list"@,
                owner_repo_check(owner@, repo@),
                self.execution(),
                self.commands(),
                seq!["--repo"@, slash(owner@, repo@)] + app_args(app),
                r,
            ),
    {
        let trace = TraceContext::new(request_id);
        self.service.list_secrets(permission, owner, repo, app, &trace)
    }

    pub fn set_secret(
        &self,
        request_id: &str,
        permission: RepoPermission,
        input: &SetSecretInput,
    ) -> (r: Result<(), AppError>)
        ensures
            guarded_unit(
                RepoPermission::Admin,
                permission,
                "settings.secrets.set"@,
                input.invalid(),
                self.execution(),
                self.commands(),
                set_secret_args(*input),
                r,
            ),
    {
        let trace = TraceContext::new(request_id);
        self.service.set_secret(permission, input, &trace)
    }

    pub fn delete_secret(
        &self,
        request_id: &str,
        permission: RepoPermission,
        input: &DeleteSecretInput,
    ) -> (r: Result<(), AppError>)
        ensures
            guarded_unit(
                RepoPermission::Admin,
                permission,
                "settings.secrets.delete"@,
                input.invalid(),
                self.execution(),
                self.commands(),
                delete_secret_args(*input),
                r,
            ),
    {
        let trace = TraceContext::new(request_id);
        self.service.delete_secret(permission, input, &trace)
    }

    pub fn list_variables(
        &self,
        request_id: &str,
        permission: RepoPermission,
        owner: &str,
        repo: &str,
    ) -> (r: Result<String, AppError>)
        ensures
            guarded_payload(
                RepoPermission::Admin,
                permission,
                "settings.variables.list"@,
                owner_repo_check(owner@, repo@),
                self.execution(),
                self.commands(),
                seq!["--repo"@, slash(owner@, repo@)],
                r,
            ),
    {
        let trace = TraceContext::new(request_id);
        self.service.list_variables(permission, owner, repo, &trace)
    }

    pub fn set_variable(
        &self,
        request_id: &str,
        permission: RepoPermission,
        input: &SetVariableInput,
    ) -> (r: Result<(), AppError>)
        ensures
            guarded_unit(
                RepoPermission::Admin,
                permission,
                "settings.variables.set"@,
                input.invalid(),
                self.execution(),
                self.commands(),
                set_variable_args(*input),
                r,
            ),
    {
        let trace = TraceContext::new(request_id);
        self.service.set_variable(permission, input, &trace)
    }

    pub fn delete_variable(
        &self,
        request_id: &str,
        permission: RepoPermission,
        input: &DeleteVariableInput,
    ) -> (r: Result<(), AppError>)
        ensures
            guarded_unit(
                RepoPermission::Admin,
                permission,
                "settings.variables.delete"@,
                input.invalid(),
                self.execution(),
                self.commands(),
                seq![input.name@, "--repo"@, slash(input.owner@, input.repo@)],
                r,
            ),
    {
        let trace = TraceContext::new(request_id);
        self.service.delete_variable(permission, input, &trace)
    }

    pub fn list_webhooks(
        &self,
        request_id: &str,
        permission: RepoPermission,
        owner: &str,
        repo: &str,
    ) -> (r: Result<String, AppError>)
        ensures
            guarded_payload(
                RepoPermission::Admin,
                permission,
                "settings.webhooks.list"@,
                owner_repo_check(owner@, repo@),
                self.execution(),
                self.commands(),
                seq![repo_path(owner@, repo@, "/hooks"@)],
                r,
            ),
    {
        let trace = TraceContext::new(request_id);
        self.service.list_webhooks(permission, owner, repo, &trace)
    }

    pub fn create_webhook(
        &self,
        request_id: &str,
        permission: RepoPermission,
        input: &CreateWebhookInput,
    ) -> (r: Result<(), AppError>)
        ensures
            guarded_unit(
                RepoPermission::Admin,
                permission,
                "settings.webhooks.create"@,
                input.invalid(),
                self.execution(),
                self.commands(),
                create_webhook_args(*input),
                r,
            ),
    {
        let trace = TraceContext::new(request_id);
        self.service.create_webhook(permission, input, &trace)
    }

    pub fn ping_webhook(
        &self,
        request_id: &str,
        permission: RepoPermission,
        input: &PingWebhookInput,
    ) -> (r: Result<(), AppError>)
        ensures
            guarded_unit(
                RepoPermission::Admin,
                permission,
                "settings.webhooks.ping"@,
                input.invalid(),
                self.execution(),
                self.commands(),
                seq![
                    repo_path(
                        input.owner@,
                        input.repo@,
                        "/hooks/"@ + decimal(input.hook_id as nat) + "/pings"@,
                    ),
                ],
                r,
            ),
    {
        let trace = TraceContext::new(request_id);
        self.service.ping_webhook(permission, input, &trace)
    }

    pub fn delete_webhook(
        &self,
        request_id: &str,
        permission: RepoPermission,
        input: &DeleteWebhookInput,
    ) -> (r: Result<(), AppError>)
        ensures
            guarded_unit(
                RepoPermission::Admin,
                permission,
                "settings.webhooks.delete"@,
                input.invalid(),
                self.execution(),
                self.commands(),
                seq![repo_path(input.owner@, input.repo@, "/hooks/"@ + decimal(input.hook_id as nat))],
                r,
            ),
    {
        let trace = TraceContext::new(request_id);
        self.service.delete_webhook(permission, input, &trace)
    }

    pub fn get_branch_protection(
        &self,
        request_id: &str,
        permission: RepoPermission,
        target: &BranchProtectionTarget,
    ) -> (r: Result<String, AppError>)
        ensures
            guarded_payload(
                RepoPermission::Admin,
                permission,
                "settings.branch_protection.get"@,
                target.invalid(),
                self.execution(),
                self.commands(),
                seq![protection_path(target.owner@, target.repo@, target.branch@)],
                r,
            ),
    {
        let trace = TraceContext::new(request_id);
        self.service.get_branch_protection(permission, target, &trace)
    }

    pub fn update_branch_protection(
        &self,
        request_id: &str,
        permission: RepoPermission,
        input: &UpdateBranchProtectionInput,
        current: &BranchProtection,
    ) -> (r: Result<(), AppError>)
        ensures
            guarded_unit(
                RepoPermission::Admin,
                permission,
                "settings.branch_protection.update"@,
                input.invalid(),
                self.execution(),
                self.commands(),
                update_protection_args(*input, *current),
                r,
            ),
    {
        let trace = TraceContext::new(request_id);
        self.service.update_branch_protection(permission, input, current, &trace)
    }

    pub fn list_deploy_keys(
        &self,
        request_id: &str,
        permission: RepoPermission,
        owner: &str,
        repo: &str,
    ) -> (r: Result<String, AppError>)
        ensures
            guarded_payload(
                RepoPermission::Admin,
                permission,
                "settings.deploy_keys.list"@,
                owner_repo_check(owner@, repo@),
                self.execution(),
                self.commands(),
                seq![repo_path(owner@, repo@, "/keys"@)],
                r,
            ),
    {
        let trace = TraceContext::new(request_id);
        self.service.list_deploy_keys(permission, owner, repo, &trace)
    }

    pub fn add_deploy_key(
        &self,
        request_id: &str,
        permission: RepoPermission,
        input: &AddDeployKeyInput,
    ) -> (r: Result<(), AppError>)
        ensures
            guarded_unit(
                RepoPermission::Admin,
                permission,
                "settings.deploy_keys.add"@,
                input.invalid(),
                self.execution(),
                self.commands(),
                add_deploy_key_args(*input),
                r,
            ),
    {
        let trace = TraceContext::new(request_id);
        self.service.add_deploy_key(permission, input, &trace)
    }

    pub fn delete_deploy_key(
        &self,
        request_id: &str,
        permission: RepoPermission,
        input: &DeleteDeployKeyInput,
    ) -> (r: Result<(), AppError>)
        ensures
            guarded_unit(
                RepoPermission::Admin,
                permission,
                "settings.deploy_keys.delete"@,
                input.invalid(),
                self.execution(),
                self.commands(),
                seq![repo_path(input.owner@, input.repo@, "/keys/"@ + decimal(input.key_id as nat))],
                r,
            ),
    {
        let trace = TraceContext::new(request_id);
        self.service.delete_deploy_key(permission, input, &trace)
    }

    pub fn list_dependabot_alerts(
        &self,
        request_id: &str,
        permission: RepoPermission,
        owner: &str,
        repo: &str,
        limit: u16,
    ) -> (r: Result<String, AppError>)
        ensures
            guarded_payload(
                RepoPermission::Admin,
                permission,
                "settings.dependabot_alerts.list"@,
                first_failure(owner_repo_check(owner@, repo@), limit_check(limit)),
                self.execution(),
                self.commands(),
                seq![repo_path(owner@, repo@, "/dependabot/alerts?per_page="@ + decimal(limit as nat))],
                r,
            ),
    {
        let trace = TraceContext::new(request_id);
        self.service.list_dependabot_alerts(permission, owner, repo, limit, &trace)
    }

}

} // verus!
