//! The actions commands as the front end calls them: each takes the request id
//! that traces it and forwards to the service.
use vstd::prelude::*;
use crate::engine::command_registry::CommandSpecView;
use crate::engine::error::AppError;
use crate::engine::executor::{CommandExecutor, Runner};
use crate::engine::observability::TraceContext;

use crate::engine::invocation::{checked_payload, first_failure, guarded_unit, limit_check, owner_repo_check};
use crate::engine::policy_guard::{RepoPermission};
use crate::features::actions::service::{ActionsService, RunActionInput, listing_args, run_args};

verus! {

pub struct ActionsCommandHandler<R: Runner> {
    service: ActionsService<R>,
}

impl<R: Runner> ActionsCommandHandler<R> {
    /// The commands the service may run.
    pub closed spec fn commands(&self) -> Seq<CommandSpecView> {
        self.service.commands()
    }

    /// Whether destructive commands are skipped.
    pub closed spec fn safe_mode(&self) -> bool {
        self.service.safe_mode()
    }

    /// The executor that runs the commands.
    pub closed spec fn execution(&self) -> CommandExecutor<R> {
        self.service.execution()
    }

    pub fn new(service: ActionsService<R>) -> (h: Self)
        ensures
            h.commands() == service.commands(),
            h.safe_mode() == service.safe_mode(),
            h.execution() == service.execution(),
    {
        ActionsCommandHandler { service }
    }

    pub fn list_workflows(
        &self,
        request_id: &str,
        owner: &str,
        repo: &str,
        limit: u16,
    ) -> (r: Result<String, AppError>)
        ensures
            checked_payload(
                first_failure(owner_repo_check(owner@, repo@), limit_check(limit)),
                self.execution(),
                self.commands(),
                "workflow.list"@,
                listing_args(owner@, repo@, limit),
                r,
            ),
    {
        let trace = TraceContext::new(request_id);
        self.service.list_workflows(owner, repo, limit, &trace)
    }

    pub fn list_runs(
        &self,
        request_id: &str,
        owner: &str,
        repo: &str,
        limit: u16,
    ) -> (r: Result<String, AppError>)
        ensures
            checked_payload(
                first_failure(owner_repo_check(owner@, repo@), limit_check(limit)),
                self.execution(),
                self.commands(),
                "run.list"@,
                listing_args(owner@, repo@, limit),
                r,
            ),
    {
        let trace = TraceContext::new(request_id);
        self.service.list_runs(owner, repo, limit, &trace)
    }

    pub fn rerun(
        &self,
        request_id: &str,
        permission: RepoPermission,
        input: &RunActionInput,
        failed_only: bool,
    ) -> (r: Result<(), AppError>)
        ensures
            guarded_unit(
                RepoPermission::Write,
                permission,
                "run.rerun"@,
                input.invalid(),
                self.execution(),
                self.commands(),
                run_args(*input, failed_only),
                r,
            ),
    {
        let trace = TraceContext::new(request_id);
        self.service.rerun(permission, input, failed_only, &trace)
    }

    pub fn cancel(
        &self,
        request_id: &str,
        permission: RepoPermission,
        input: &RunActionInput,
    ) -> (r: Result<(), AppError>)
        ensures
            guarded_unit(
                RepoPermission::Write,
                permission,
                "run.cancel"@,
                input.invalid(),
                self.execution(),
                self.commands(),
                run_args(*input, false),
                r,
            ),
    {
        let trace = TraceContext::new(request_id);
        self.service.cancel(permission, input, &trace)
    }

}

} // verus!
