//! The discussions commands as the front end calls them: each takes the request id
//! that traces it and forwards to the service.
use vstd::prelude::*;
use crate::engine::command_registry::CommandSpecView;
use crate::engine::error::AppError;
use crate::engine::executor::{CommandExecutor, Runner};
use crate::engine::observability::TraceContext;

use crate::engine::invocation::{checked_payload, first_failure, guarded_payload, guarded_unit, limit_check, owner_repo_check};
use crate::engine::policy_guard::{RepoPermission};
use crate::features::discussions::dto::{DiscussionResolvedIds};
use crate::features::discussions::service::{CLOSE_DISCUSSION_MUTATION, CloseDiscussionInput, CreateDiscussionInput, DiscussionsService, LIST_CATEGORIES_QUERY, LIST_DISCUSSIONS_QUERY, MARK_ANSWER_MUTATION, MarkAnswerInput, RESOLVE_IDS_QUERY, creation_args, mutation_args, query_args};
use crate::text::{decimal};

verus! {

pub struct DiscussionsCommandHandler<R: Runner> {
    service: DiscussionsService<R>,
}

impl<R: Runner> DiscussionsCommandHandler<R> {
    /// The commands the service may run.
    pub closed spec fn commands(&self) -> Seq<CommandSpecView> {
        self.service.commands()
    }

    /// Whether destructive commands are skipped.
    pub closed spec fn safe_mode(&self) -> bool {
        self.service.safe_mode()
    }

    /// The executor that runs the commands.
    pub closed spec fn execution(&self) -> CommandExecutor<R> {
        self.service.execution()
    }

    pub fn new(service: DiscussionsService<R>) -> (h: Self)
        ensures
            h.commands() == service.commands(),
            h.safe_mode() == service.safe_mode(),
            h.execution() == service.execution(),
    {
        DiscussionsCommandHandler { service }
    }

    pub fn list_categories(
        &self,
        request_id: &str,
        owner: &str,
        repo: &str,
        limit: u16,
    ) -> (r: Result<String, AppError>)
        ensures
            checked_payload(
                first_failure(owner_repo_check(owner@, repo@), limit_check(limit)),
                self.execution(),
                self.commands(),
                "discussions.categories.list"@,
                query_args(LIST_CATEGORIES_QUERY@, owner@, repo@, decimal(limit as nat)),
                r,
            ),
    {
        let trace = TraceContext::new(request_id);
        self.service.list_categories(owner, repo, limit, &trace)
    }

    pub fn list_discussions(
        &self,
        request_id: &str,
        owner: &str,
        repo: &str,
        limit: u16,
    ) -> (r: Result<String, AppError>)
        ensures
            checked_payload(
                first_failure(owner_repo_check(owner@, repo@), limit_check(limit)),
                self.execution(),
                self.commands(),
                "discussions.list"@,
                query_args(LIST_DISCUSSIONS_QUERY@, owner@, repo@, decimal(limit as nat)),
                r,
            ),
    {
        let trace = TraceContext::new(request_id);
        self.service.list(owner, repo, limit, &trace)
    }

    pub fn resolve_discussion_ids(
        &self,
        request_id: &str,
        permission: RepoPermission,
        input: &CreateDiscussionInput,
    ) -> (r: Result<String, AppError>)
        ensures
            guarded_payload(
                RepoPermission::Write,
                permission,
                "discussions.create"@,
                input.invalid(),
                self.execution(),
                self.commands(),
                query_args(RESOLVE_IDS_QUERY@, input.owner@, input.repo@, "100"@),
                r,
            ),
    {
        let trace = TraceContext::new(request_id);
        self.service.resolve_ids(permission, input, &trace)
    }

    pub fn create_discussion(
        &self,
        request_id: &str,
        permission: RepoPermission,
        input: &CreateDiscussionInput,
        ids: &DiscussionResolvedIds,
    ) -> (r: Result<String, AppError>)
        ensures
            guarded_payload(
                RepoPermission::Write,
                permission,
                "discussions.create"@,
                input.invalid(),
                self.execution(),
                self.commands(),
                creation_args(*input, *ids),
                r,
            ),
    {
        let trace = TraceContext::new(request_id);
        self.service.create(permission, input, ids, &trace)
    }

    pub fn close_discussion(
        &self,
        request_id: &str,
        permission: RepoPermission,
        input: &CloseDiscussionInput,
    ) -> (r: Result<(), AppError>)
        ensures
            guarded_unit(
                RepoPermission::Write,
                permission,
                "discussions.close"@,
                input.invalid(),
                self.execution(),
                self.commands(),
                mutation_args(CLOSE_DISCUSSION_MUTATION@, "discussion_id"@, input.discussion_id@),
                r,
            ),
    {
        let trace = TraceContext::new(request_id);
        self.service.close(permission, input, &trace)
    }

    pub fn mark_discussion_answer(
        &self,
        request_id: &str,
        permission: RepoPermission,
        input: &MarkAnswerInput,
    ) -> (r: Result<(), AppError>)
        ensures
            guarded_unit(
                RepoPermission::Write,
                permission,
                "discussions.answer"@,
                input.invalid(),
                self.execution(),
                self.commands(),
                mutation_args(MARK_ANSWER_MUTATION@, "comment_id"@, input.comment_id@),
                r,
            ),
    {
        let trace = TraceContext::new(request_id);
        self.service.mark_answer(permission, input, &trace)
    }

}

} // verus!
