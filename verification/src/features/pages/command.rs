//! The pages commands as the front end calls them: each takes the request id
//! that traces it and forwards to the service.
use vstd::prelude::*;
use crate::engine::command_registry::CommandSpecView;
use crate::engine::error::AppError;
use crate::engine::executor::{CommandExecutor, Runner};
use crate::engine::observability::TraceContext;

use crate::engine::invocation::{checked_payload, guarded_payload, guarded_unit, owner_repo_check, repo_path};
use crate::engine::policy_guard::{RepoPermission};
use crate::features::pages::service::{ConfigurePagesInput, DeletePagesInput, PagesService, configure_args};

verus! {

pub struct PagesCommandHandler<R: Runner> {
    service: PagesService<R>,
}

impl<R: Runner> PagesCommandHandler<R> {
    /// The commands the service may run.
    pub closed spec fn commands(&self) -> Seq<CommandSpecView> {
        self.service.commands()
    }

    /// Whether destructive commands are skipped.
    pub closed spec fn safe_mode(&self) -> bool {
        self.service.safe_mode()
    }

    /// The executor that runs the commands.
    pub closed spec fn execution(&self) -> CommandExecutor<R> {
        self.service.execution()
    }

    pub fn new(service: PagesService<R>) -> (h: Self)
        ensures
            h.commands() == service.commands(),
            h.safe_mode() == service.safe_mode(),
            h.execution() == service.execution(),
    {
        PagesCommandHandler { service }
    }

    pub fn get_pages(
        &self,
        request_id: &str,
        owner: &str,
        repo: &str,
    ) -> (r: Result<String, AppError>)
        ensures
            checked_payload(
                owner_repo_check(owner@, repo@),
                self.execution(),
                self.commands(),
                "pages.get"@,
                seq![repo_path(owner@, repo@, "/pages"@)],
                r,
            ),
    {
        let trace = TraceContext::new(request_id);
        self.service.get(owner, repo, &trace)
    }

    pub fn create_pages(
        &self,
        request_id: &str,
        permission: RepoPermission,
        input: &ConfigurePagesInput,
    ) -> (r: Result<String, AppError>)
        ensures
            guarded_payload(
                RepoPermission::Admin,
                permission,
                "pages.create"@,
                input.invalid(),
                self.execution(),
                self.commands(),
                configure_args(*input),
                r,
            ),
    {
        let trace = TraceContext::new(request_id);
        self.service.create(permission, input, &trace)
    }

    pub fn update_pages(
        &self,
        request_id: &str,
        permission: RepoPermission,
        input: &ConfigurePagesInput,
    ) -> (r: Result<String, AppError>)
        ensures
            guarded_payload(
                RepoPermission::Admin,
                permission,
                "pages.update"@,
                input.invalid(),
                self.execution(),
                self.commands(),
                configure_args(*input),
                r,
            ),
    {
        let trace = TraceContext::new(request_id);
        self.service.update(permission, input, &trace)
    }

    pub fn delete_pages(
        &self,
        request_id: &str,
        permission: RepoPermission,
        input: &DeletePagesInput,
    ) -> (r: Result<(), AppError>)
        ensures
            guarded_unit(
                RepoPermission::Admin,
                permission,
                "pages.delete"@,
                input.invalid(),
                self.execution(),
                self.commands(),
                seq![repo_path(input.owner@, input.repo@, "/pages"@)],
                r,
            ),
    {
        let trace = TraceContext::new(request_id);
        self.service.delete(permission, input, &trace)
    }

}

} // verus!
