//! The projects commands as the front end calls them: each takes the request id
//! that traces it and forwards to the service.
use vstd::prelude::*;
use crate::engine::command_registry::CommandSpecView;
use crate::engine::error::AppError;
use crate::engine::executor::{CommandExecutor, Runner};
use crate::engine::observability::TraceContext;

use crate::engine::invocation::{checked_payload, first_failure, guarded_payload, limit_check, nonzero_check, owner_repo_check};
use crate::engine::policy_guard::{RepoPermission};
use crate::features::projects::service::{AddProjectItemInput, ProjectsService, add_item_args, items_args, list_args};

verus! {

pub struct ProjectsCommandHandler<R: Runner> {
    service: ProjectsService<R>,
}

impl<R: Runner> ProjectsCommandHandler<R> {
    /// The commands the service may run.
    pub closed spec fn commands(&self) -> Seq<CommandSpecView> {
        self.service.commands()
    }

    /// Whether destructive commands are skipped.
    pub closed spec fn safe_mode(&self) -> bool {
        self.service.safe_mode()
    }

    /// The executor that runs the commands.
    pub closed spec fn execution(&self) -> CommandExecutor<R> {
        self.service.execution()
    }

    pub fn new(service: ProjectsService<R>) -> (h: Self)
        ensures
            h.commands() == service.commands(),
            h.safe_mode() == service.safe_mode(),
            h.execution() == service.execution(),
    {
        ProjectsCommandHandler { service }
    }

    pub fn list_projects(
        &self,
        request_id: &str,
        owner: &str,
        repo: &str,
        limit: u16,
    ) -> (r: Result<String, AppError>)
        ensures
            checked_payload(
                first_failure(owner_repo_check(owner@, repo@), limit_check(limit)),
                self.execution(),
                self.commands(),
                "projects.list"@,
                list_args(owner@, repo@, limit),
                r,
            ),
    {
        let trace = TraceContext::new(request_id);
        self.service.list(owner, repo, limit, &trace)
    }

    pub fn list_project_items(
        &self,
        request_id: &str,
        owner: &str,
        repo: &str,
        project_number: u32,
        limit: u16,
    ) -> (r: Result<String, AppError>)
        ensures
            checked_payload(
                first_failure(
                    owner_repo_check(owner@, repo@),
                    first_failure(
                        nonzero_check(project_number as int, "project_number must be greater than 0"@),
                        limit_check(limit),
                    ),
                ),
                self.execution(),
                self.commands(),
                "projects.items.list"@,
                items_args(owner@, repo@, project_number, limit),
                r,
            ),
    {
        let trace = TraceContext::new(request_id);
        self.service.list_items(owner, repo, project_number, limit, &trace)
    }

    pub fn add_project_item(
        &self,
        request_id: &str,
        permission: RepoPermission,
        input: &AddProjectItemInput,
    ) -> (r: Result<String, AppError>)
        ensures
            guarded_payload(
                RepoPermission::Write,
                permission,
                "projects.items.add"@,
                input.invalid(),
                self.execution(),
                self.commands(),
                add_item_args(*input),
                r,
            ),
    {
        let trace = TraceContext::new(request_id);
        self.service.add_item(permission, input, &trace)
    }

}

} // verus!
