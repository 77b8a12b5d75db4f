//! Repository traffic: views and clones.
use vstd::prelude::*;
use crate::engine::command_registry::{CommandRegistry, CommandSpecView, texts};
use crate::engine::error::AppError;
use crate::engine::executor::{CommandExecutor, Runner};
use crate::engine::invocation::{
    checked_payload, no_args, owner_repo_check, push_arg, repo_path, repo_path_string,
    require_owner_repo, run_payload,
};
use crate::engine::observability::TraceContext;

verus! {

pub struct InsightsService<R: Runner> {
    registry: CommandRegistry,
    executor: CommandExecutor<R>,
}

impl<R: Runner> InsightsService<R> {
    /// The commands this service may run.
    pub closed spec fn commands(&self) -> Seq<CommandSpecView> {
        self.registry@
    }

    /// Whether destructive commands are skipped.
    pub closed spec fn safe_mode(&self) -> bool {
        self.executor.safe_mode()
    }

    /// The executor that runs the commands.
    pub closed spec fn execution(&self) -> CommandExecutor<R> {
        self.executor
    }

    pub fn new(registry: CommandRegistry, executor: CommandExecutor<R>) -> (s: Self)
        ensures
            s.commands() == registry@,
            s.safe_mode() == executor.safe_mode(),
            s.execution() == executor,
    {
        InsightsService { registry, executor }
    }

    fn traffic(&self, id: &str, owner: &str, repo: &str, tail: &str, trace: &TraceContext) -> (r:
        Result<String, AppError>)
        ensures
            checked_payload(
                owner_repo_check(owner@, repo@),
                self.execution(),
                self.commands(),
                id@,
                seq![repo_path(owner@, repo@, tail@)],
                r,
            ),
    {
        require_owner_repo(owner, repo)?;
        let mut args = no_args();
        push_arg(&mut args, repo_path_string(owner, repo, tail));
        assert(texts(args@) =~= seq![repo_path(owner@, repo@, tail@)]);
        run_payload(&self.registry, &self.executor, id, &args, trace)
    }

    /// The page views of a repository; the result is the command's JSON output.
    pub fn get_views(&self, owner: &str, repo: &str, trace: &TraceContext) -> (r: Result<
        String,
        AppError,
    >)
        ensures
            checked_payload(
                owner_repo_check(owner@, repo@),
                self.execution(),
                self.commands(),
                "insights.views.get"@,
                seq![repo_path(owner@, repo@, "/traffic/views"@)],
                r,
            ),
    {
        self.traffic("insights.views.get", owner, repo, "/traffic/views", trace)
    }

    /// The clones of a repository; the result is the command's JSON output.
    pub fn get_clones(&self, owner: &str, repo: &str, trace: &TraceContext) -> (r: Result<
        String,
        AppError,
    >)
        ensures
            checked_payload(
                owner_repo_check(owner@, repo@),
                self.execution(),
                self.commands(),
                "insights.clones.get"@,
                seq![repo_path(owner@, repo@, "/traffic/clones"@)],
                r,
            ),
    {
        self.traffic("insights.clones.get", owner, repo, "/traffic/clones", trace)
    }
}

} // verus!
