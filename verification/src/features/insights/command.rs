//! The insights commands as the front end calls them: each takes the request id
//! that traces it and forwards to the service.
use vstd::prelude::*;
use crate::engine::command_registry::CommandSpecView;
use crate::engine::error::AppError;
use crate::engine::executor::{CommandExecutor, Runner};
use crate::engine::observability::TraceContext;

use crate::engine::invocation::{checked_payload, owner_repo_check, repo_path};
use crate::features::insights::service::{InsightsService};

verus! {

pub struct InsightsCommandHandler<R: Runner> {
    service: InsightsService<R>,
}

impl<R: Runner> InsightsCommandHandler<R> {
    /// The commands the service may run.
    pub closed spec fn commands(&self) -> Seq<CommandSpecView> {
        self.service.commands()
    }

    /// Whether destructive commands are skipped.
    pub closed spec fn safe_mode(&self) -> bool {
        self.service.safe_mode()
    }

    /// The executor that runs the commands.
    pub closed spec fn execution(&self) -> CommandExecutor<R> {
        self.service.execution()
    }

    pub fn new(service: InsightsService<R>) -> (h: Self)
        ensures
            h.commands() == service.commands(),
            h.safe_mode() == service.safe_mode(),
            h.execution() == service.execution(),
    {
        InsightsCommandHandler { service }
    }

    pub fn get_views(
        &self,
        request_id: &str,
        owner: &str,
        repo: &str,
    ) -> (r: Result<String, AppError>)
        ensures
            checked_payload(
                owner_repo_check(owner@, repo@),
                self.execution(),
                self.commands(),
                "insights.views.get"@,
                seq![repo_path(owner@, repo@, "/traffic/views"@)],
                r,
            ),
    {
        let trace = TraceContext::new(request_id);
        self.service.get_views(owner, repo, &trace)
    }

    pub fn get_clones(
        &self,
        request_id: &str,
        owner: &str,
        repo: &str,
    ) -> (r: Result<String, AppError>)
        ensures
            checked_payload(
                owner_repo_check(owner@, repo@),
                self.execution(),
                self.commands(),
                "insights.clones.get"@,
                seq![repo_path(owner@, repo@, "/traffic/clones"@)],
                r,
            ),
    {
        let trace = TraceContext::new(request_id);
        self.service.get_clones(owner, repo, &trace)
    }

}

} // verus!
