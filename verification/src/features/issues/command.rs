//! The issues commands as the front end calls them: each takes the request id
//! that traces it and forwards to the service.
use vstd::prelude::*;
use crate::engine::command_registry::CommandSpecView;
use crate::engine::error::AppError;
use crate::engine::executor::{CommandExecutor, Runner};
use crate::engine::observability::TraceContext;

use crate::engine::invocation::{checked_payload, first_failure, guarded_unit, limit_check, owner_repo_check, parsed_result};
use crate::engine::policy_guard::{RepoPermission, guard_outcome};
use crate::features::issues::dto::{IssueCreated, issue_created_parse};
use crate::features::issues::service::{CloseIssueInput, CommentIssueInput, CreateIssueInput, EditIssueInput, IssuesService, ReopenIssueInput, close_args, comment_args, create_args, edit_args, list_args, reopen_args};

verus! {

pub struct IssuesCommandHandler<R: Runner> {
    service: IssuesService<R>,
}

impl<R: Runner> IssuesCommandHandler<R> {
    /// The commands the service may run.
    pub closed spec fn commands(&self) -> Seq<CommandSpecView> {
        self.service.commands()
    }

    /// Whether destructive commands are skipped.
    pub closed spec fn safe_mode(&self) -> bool {
        self.service.safe_mode()
    }

    /// The executor that runs the commands.
    pub closed spec fn execution(&self) -> CommandExecutor<R> {
        self.service.execution()
    }

    pub fn new(service: IssuesService<R>) -> (h: Self)
        ensures
            h.commands() == service.commands(),
            h.safe_mode() == service.safe_mode(),
            h.execution() == service.execution(),
    {
        IssuesCommandHandler { service }
    }

    pub fn list_issues(
        &self,
        request_id: &str,
        owner: &str,
        repo: &str,
        limit: u16,
    ) -> (r: Result<String, AppError>)
        ensures
            checked_payload(
                first_failure(owner_repo_check(owner@, repo@), limit_check(limit)),
                self.execution(),
                self.commands(),
                "issue.list"@,
                list_args(owner@, repo@, limit),
                r,
            ),
    {
        let trace = TraceContext::new(request_id);
        self.service.list(owner, repo, limit, &trace)
    }

    pub fn create_issue(
        &self,
        request_id: &str,
        permission: RepoPermission,
        input: &CreateIssueInput,
    ) -> (r: Result<IssueCreated, AppError>)
        ensures
            match first_failure(
                guard_outcome(RepoPermission::Write, permission, "issue.create"@),
                input.invalid(),
            ) {
                Some(v) => r matches Err(e) && e.is(v),
                None => parsed_result(
                    self.execution(),
                    self.commands(),
                    "issue.create"@,
                    create_args(*input),
                    r,
                    issue_created_parse(),
                ),
            },
    {
        let trace = TraceContext::new(request_id);
        self.service.create(permission, input, &trace)
    }

    pub fn comment_issue(
        &self,
        request_id: &str,
        permission: RepoPermission,
        input: &CommentIssueInput,
    ) -> (r: Result<(), AppError>)
        ensures
            guarded_unit(
                RepoPermission::Write,
                permission,
                "issue.comment"@,
                input.invalid(),
                self.execution(),
                self.commands(),
                comment_args(*input),
                r,
            ),
    {
        let trace = TraceContext::new(request_id);
        self.service.comment(permission, input, &trace)
    }

    pub fn close_issue(
        &self,
        request_id: &str,
        permission: RepoPermission,
        input: &CloseIssueInput,
    ) -> (r: Result<(), AppError>)
        ensures
            guarded_unit(
                RepoPermission::Write,
                permission,
                "issue.close"@,
                input.invalid(),
                self.execution(),
                self.commands(),
                close_args(*input),
                r,
            ),
    {
        let trace = TraceContext::new(request_id);
        self.service.close(permission, input, &trace)
    }

    pub fn edit_issue(
        &self,
        request_id: &str,
        permission: RepoPermission,
        input: &EditIssueInput,
    ) -> (r: Result<(), AppError>)
        ensures
            guarded_unit(
                RepoPermission::Write,
                permission,
                "issue.edit"@,
                input.invalid(),
                self.execution(),
                self.commands(),
                edit_args(*input),
                r,
            ),
    {
        let trace = TraceContext::new(request_id);
        self.service.edit(permission, input, &trace)
    }

    pub fn reopen_issue(
        &self,
        request_id: &str,
        permission: RepoPermission,
        input: &ReopenIssueInput,
    ) -> (r: Result<(), AppError>)
        ensures
            guarded_unit(
                RepoPermission::Write,
                permission,
                "issue.reopen"@,
                input.invalid(),
                self.execution(),
                self.commands(),
                reopen_args(*input),
                r,
            ),
    {
        let trace = TraceContext::new(request_id);
        self.service.reopen(permission, input, &trace)
    }

}

} // verus!
