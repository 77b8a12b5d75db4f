//! The releases commands as the front end calls them: each takes the request id
//! that traces it and forwards to the service.
use vstd::prelude::*;
use crate::engine::command_registry::CommandSpecView;
use crate::engine::error::AppError;
use crate::engine::executor::{CommandExecutor, Runner};
use crate::engine::observability::TraceContext;

use crate::engine::invocation::{checked_payload, first_failure, guarded_unit, limit_check, owner_repo_check, parsed_result};
use crate::engine::policy_guard::{RepoPermission, guard_outcome};
use crate::features::releases::dto::{ReleaseCreated, release_created_parse};
use crate::features::releases::service::{CreateReleaseInput, DeleteReleaseInput, ReleasesService, create_args, delete_args, list_args};

verus! {

pub struct ReleasesCommandHandler<R: Runner> {
    service: ReleasesService<R>,
}

impl<R: Runner> ReleasesCommandHandler<R> {
    /// The commands the service may run.
    pub closed spec fn commands(&self) -> Seq<CommandSpecView> {
        self.service.commands()
    }

    /// Whether destructive commands are skipped.
    pub closed spec fn safe_mode(&self) -> bool {
        self.service.safe_mode()
    }

    /// The executor that runs the commands.
    pub closed spec fn execution(&self) -> CommandExecutor<R> {
        self.service.execution()
    }

    pub fn new(service: ReleasesService<R>) -> (h: Self)
        ensures
            h.commands() == service.commands(),
            h.safe_mode() == service.safe_mode(),
            h.execution() == service.execution(),
    {
        ReleasesCommandHandler { service }
    }

    pub fn list_releases(
        &self,
        request_id: &str,
        owner: &str,
        repo: &str,
        limit: u16,
    ) -> (r: Result<String, AppError>)
        ensures
            checked_payload(
                first_failure(owner_repo_check(owner@, repo@), limit_check(limit)),
                self.execution(),
                self.commands(),
                "release.list"@,
                list_args(owner@, repo@, limit),
                r,
            ),
    {
        let trace = TraceContext::new(request_id);
        self.service.list(owner, repo, limit, &trace)
    }

    pub fn create_release(
        &self,
        request_id: &str,
        permission: RepoPermission,
        input: &CreateReleaseInput,
    ) -> (r: Result<ReleaseCreated, AppError>)
        ensures
            match first_failure(
                guard_outcome(RepoPermission::Write, permission, "release.create"@),
                input.invalid(),
            ) {
                Some(v) => r matches Err(e) && e.is(v),
                None => parsed_result(
                    self.execution(),
                    self.commands(),
                    "release.create"@,
                    create_args(*input),
                    r,
                    release_created_parse(input.tag@),
                ),
            },
    {
        let trace = TraceContext::new(request_id);
        self.service.create(permission, input, &trace)
    }

    pub fn delete_release(
        &self,
        request_id: &str,
        permission: RepoPermission,
        input: &DeleteReleaseInput,
    ) -> (r: Result<(), AppError>)
        ensures
            guarded_unit(
                RepoPermission::Admin,
                permission,
                "release.delete"@,
                input.invalid(),
                self.execution(),
                self.commands(),
                delete_args(*input),
                r,
            ),
    {
        let trace = TraceContext::new(request_id);
        self.service.delete(permission, input, &trace)
    }

}

} // verus!
