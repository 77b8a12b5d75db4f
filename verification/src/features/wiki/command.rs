//! The wiki commands as the front end calls them: each takes the request id
//! that traces it and forwards to the service.
use vstd::prelude::*;
use crate::engine::command_registry::CommandSpecView;
use crate::engine::error::AppError;
use crate::engine::executor::{CommandExecutor, Runner};
use crate::engine::observability::TraceContext;

use crate::engine::invocation::{checked_payload, guarded_unit, owner_repo_check, repo_path};
use crate::engine::policy_guard::{RepoPermission};
use crate::features::wiki::service::{UpdateWikiInput, WikiService, update_args};

verus! {

pub struct WikiCommandHandler<R: Runner> {
    service: WikiService<R>,
}

impl<R: Runner> WikiCommandHandler<R> {
    /// The commands the service may run.
    pub closed spec fn commands(&self) -> Seq<CommandSpecView> {
        self.service.commands()
    }

    /// Whether destructive commands are skipped.
    pub closed spec fn safe_mode(&self) -> bool {
        self.service.safe_mode()
    }

    /// The executor that runs the commands.
    pub closed spec fn execution(&self) -> CommandExecutor<R> {
        self.service.execution()
    }

    pub fn new(service: WikiService<R>) -> (h: Self)
        ensures
            h.commands() == service.commands(),
            h.safe_mode() == service.safe_mode(),
            h.execution() == service.execution(),
    {
        WikiCommandHandler { service }
    }

    pub fn get_wiki(
        &self,
        request_id: &str,
        owner: &str,
        repo: &str,
    ) -> (r: Result<String, AppError>)
        ensures
            checked_payload(
                owner_repo_check(owner@, repo@),
                self.execution(),
                self.commands(),
                "wiki.get"@,
                seq![repo_path(owner@, repo@, ""@)],
                r,
            ),
    {
        let trace = TraceContext::new(request_id);
        self.service.get(owner, repo, &trace)
    }

    pub fn update_wiki(
        &self,
        request_id: &str,
        permission: RepoPermission,
        input: &UpdateWikiInput,
    ) -> (r: Result<(), AppError>)
        ensures
            guarded_unit(
                RepoPermission::Admin,
                permission,
                "wiki.update"@,
                input.invalid(),
                self.execution(),
                self.commands(),
                update_args(*input),
                r,
            ),
    {
        let trace = TraceContext::new(request_id);
        self.service.update(permission, input, &trace)
    }

}

} // verus!
