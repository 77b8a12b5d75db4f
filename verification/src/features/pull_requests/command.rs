//! The pull requests commands as the front end calls them: each takes the request id
//! that traces it and forwards to the service.
use vstd::prelude::*;
use crate::engine::command_registry::CommandSpecView;
use crate::engine::error::AppError;
use crate::engine::executor::{CommandExecutor, Runner};
use crate::engine::observability::TraceContext;

use crate::engine::invocation::{checked_payload, first_failure, guarded_payload, guarded_unit, limit_check, owner_repo_check};
use crate::engine::policy_guard::{RepoPermission};
use crate::features::pull_requests::service::{CreatePullRequestInput, MergePullRequestInput, PullRequestsService, ReviewPullRequestInput, create_args, list_args, merge_args, review_args};

verus! {

pub struct PullRequestsCommandHandler<R: Runner> {
    service: PullRequestsService<R>,
}

impl<R: Runner> PullRequestsCommandHandler<R> {
    /// The commands the service may run.
    pub closed spec fn commands(&self) -> Seq<CommandSpecView> {
        self.service.commands()
    }

    /// Whether destructive commands are skipped.
    pub closed spec fn safe_mode(&self) -> bool {
        self.service.safe_mode()
    }

    /// The executor that runs the commands.
    pub closed spec fn execution(&self) -> CommandExecutor<R> {
        self.service.execution()
    }

    pub fn new(service: PullRequestsService<R>) -> (h: Self)
        ensures
            h.commands() == service.commands(),
            h.safe_mode() == service.safe_mode(),
            h.execution() == service.execution(),
    {
        PullRequestsCommandHandler { service }
    }

    pub fn list_pull_requests(
        &self,
        request_id: &str,
        owner: &str,
        repo: &str,
        limit: u16,
    ) -> (r: Result<String, AppError>)
        ensures
            checked_payload(
                first_failure(owner_repo_check(owner@, repo@), limit_check(limit)),
                self.execution(),
                self.commands(),
                "pr.list"@,
                list_args(owner@, repo@, limit),
                r,
            ),
    {
        let trace = TraceContext::new(request_id);
        self.service.list(owner, repo, limit, &trace)
    }

    pub fn create_pull_request(
        &self,
        request_id: &str,
        permission: RepoPermission,
        input: &CreatePullRequestInput,
    ) -> (r: Result<String, AppError>)
        ensures
            guarded_payload(
                RepoPermission::Write,
                permission,
                "pr.create"@,
                input.invalid(),
                self.execution(),
                self.commands(),
                create_args(*input),
                r,
            ),
    {
        let trace = TraceContext::new(request_id);
        self.service.create(permission, input, &trace)
    }

    pub fn review_pull_request(
        &self,
        request_id: &str,
        permission: RepoPermission,
        input: &ReviewPullRequestInput,
    ) -> (r: Result<(), AppError>)
        ensures
            guarded_unit(
                RepoPermission::Write,
                permission,
                "pr.review"@,
                input.invalid(),
                self.execution(),
                self.commands(),
                review_args(*input),
                r,
            ),
    {
        let trace = TraceContext::new(request_id);
        self.service.review(permission, input, &trace)
    }

    pub fn merge_pull_request(
        &self,
        request_id: &str,
        permission: RepoPermission,
        input: &MergePullRequestInput,
    ) -> (r: Result<(), AppError>)
        ensures
            guarded_unit(
                RepoPermission::Write,
                permission,
                "pr.merge"@,
                input.invalid(),
                self.execution(),
                self.commands(),
                merge_args(*input),
                r,
            ),
    {
        let trace = TraceContext::new(request_id);
        self.service.merge(permission, input, &trace)
    }

}

} // verus!
