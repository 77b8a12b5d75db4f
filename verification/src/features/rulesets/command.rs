//! The rulesets commands as the front end calls them: each takes the request id
//! that traces it and forwards to the service.
use vstd::prelude::*;
use crate::engine::command_registry::CommandSpecView;
use crate::engine::error::AppError;
use crate::engine::executor::{CommandExecutor, Runner};
use crate::engine::observability::TraceContext;

use crate::engine::invocation::{first_failure, guarded_payload, guarded_unit, owner_repo_check, repo_path};
use crate::engine::policy_guard::{RepoPermission};
use crate::features::rulesets::service::{DeleteRulesetInput, RulesetsService, UpsertRulesetInput, field_args, ruleset_id_check, ruleset_path};

verus! {

pub struct RulesetsCommandHandler<R: Runner> {
    service: RulesetsService<R>,
}

impl<R: Runner> RulesetsCommandHandler<R> {
    /// The commands the service may run.
    pub closed spec fn commands(&self) -> Seq<CommandSpecView> {
        self.service.commands()
    }

    /// Whether destructive commands are skipped.
    pub closed spec fn safe_mode(&self) -> bool {
        self.service.safe_mode()
    }

    /// The executor that runs the commands.
    pub closed spec fn execution(&self) -> CommandExecutor<R> {
        self.service.execution()
    }

    pub fn new(service: RulesetsService<R>) -> (h: Self)
        ensures
            h.commands() == service.commands(),
            h.safe_mode() == service.safe_mode(),
            h.execution() == service.execution(),
    {
        RulesetsCommandHandler { service }
    }

    pub fn list_rulesets(
        &self,
        request_id: &str,
        permission: RepoPermission,
        owner: &str,
        repo: &str,
    ) -> (r: Result<String, AppError>)
        ensures
            guarded_payload(
                RepoPermission::Admin,
                permission,
                "rulesets.list"@,
                owner_repo_check(owner@, repo@),
                self.execution(),
                self.commands(),
                seq![repo_path(owner@, repo@, "/rulesets"@)],
                r,
            ),
    {
        let trace = TraceContext::new(request_id);
        self.service.list(permission, owner, repo, &trace)
    }

    pub fn get_ruleset(
        &self,
        request_id: &str,
        permission: RepoPermission,
        owner: &str,
        repo: &str,
        ruleset_id: u64,
    ) -> (r: Result<String, AppError>)
        ensures
            guarded_payload(
                RepoPermission::Admin,
                permission,
                "rulesets.get"@,
                first_failure(owner_repo_check(owner@, repo@), ruleset_id_check(ruleset_id)),
                self.execution(),
                self.commands(),
                seq![ruleset_path(owner@, repo@, ruleset_id)],
                r,
            ),
    {
        let trace = TraceContext::new(request_id);
        self.service.get(permission, owner, repo, ruleset_id, &trace)
    }

    pub fn create_ruleset(
        &self,
        request_id: &str,
        permission: RepoPermission,
        input: &UpsertRulesetInput,
    ) -> (r: Result<(), AppError>)
        ensures
            guarded_unit(
                RepoPermission::Admin,
                permission,
                "rulesets.create"@,
                input.invalid(),
                self.execution(),
                self.commands(),
                seq![repo_path(input.owner@, input.repo@, "/rulesets"@)] + field_args(input.fields@),
                r,
            ),
    {
        let trace = TraceContext::new(request_id);
        self.service.create(permission, input, &trace)
    }

    pub fn update_ruleset(
        &self,
        request_id: &str,
        permission: RepoPermission,
        input: &UpsertRulesetInput,
        ruleset_id: u64,
    ) -> (r: Result<(), AppError>)
        ensures
            guarded_unit(
                RepoPermission::Admin,
                permission,
                "rulesets.update"@,
                first_failure(input.invalid(), ruleset_id_check(ruleset_id)),
                self.execution(),
                self.commands(),
                seq![ruleset_path(input.owner@, input.repo@, ruleset_id)] + field_args(input.fields@),
                r,
            ),
    {
        let trace = TraceContext::new(request_id);
        self.service.update(permission, input, ruleset_id, &trace)
    }

    pub fn delete_ruleset(
        &self,
        request_id: &str,
        permission: RepoPermission,
        input: &DeleteRulesetInput,
    ) -> (r: Result<(), AppError>)
        ensures
            guarded_unit(
                RepoPermission::Admin,
                permission,
                "rulesets.delete"@,
                input.invalid(),
                self.execution(),
                self.commands(),
                seq![ruleset_path(input.owner@, input.repo@, input.ruleset_id)],
                r,
            ),
    {
        let trace = TraceContext::new(request_id);
        self.service.delete(permission, input, &trace)
    }

}

} // verus!
