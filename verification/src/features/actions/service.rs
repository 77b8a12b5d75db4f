//! GitHub Actions: listing workflows and runs, re-running and cancelling runs.
use vstd::prelude::*;
use crate::engine::command_registry::{CommandRegistry, CommandSpecView, texts};
use crate::engine::error::{AppError, ErrorView};
use crate::engine::executor::{CommandExecutor, Runner};
use crate::engine::invocation::{
    check_result, checked_payload, first_failure, guarded_unit, limit_check, no_args,
    nonzero_check, owner_repo_check, push_arg, push_str_arg, require_limit, require_nonzero,
    require_owner_repo, run_payload, run_unit, slash, slash_join,
};
use crate::engine::observability::TraceContext;
use crate::engine::policy_guard::{PolicyGuard, RepoPermission};
use crate::text::{decimal, decimal_string};

verus! {

broadcast use vstd::string::group_string_axioms;

#[derive(Debug, Clone, PartialEq, Eq)]
pub struct RunActionInput {
    pub owner: String,
    pub repo: String,
    pub run_id: u64,
}

impl RunActionInput {
    pub open spec fn invalid(&self) -> Option<ErrorView> {
        first_failure(
            owner_repo_check(self.owner@, self.repo@),
            nonzero_check(self.run_id as int, "run id must be greater than 0"@),
        )
    }

    pub fn validate(&self) -> (r: Result<(), AppError>)
        ensures
            check_result(self.invalid(), r),
    {
        require_owner_repo(self.owner.as_str(), self.repo.as_str())?;
        require_nonzero(self.run_id, "run id must be greater than 0")
    }
}

/// `["--repo", "owner/repo", "--limit", limit, "--all"]`.
pub open spec fn listing_args(owner: Seq<char>, repo: Seq<char>, limit: u16) -> Seq<Seq<char>> {
    seq!["--repo"@, slash(owner, repo), "--limit"@, decimal(limit as nat), "--all"@]
}

/// `[run_id, "--repo", "owner/repo"]`, then `--failed` when only the failed
/// jobs are run again.
pub open spec fn run_args(input: RunActionInput, failed_only: bool) -> Seq<Seq<char>> {
    seq![decimal(input.run_id as nat), "--repo"@, slash(input.owner@, input.repo@)] + if failed_only {
        seq!["--failed"@]
    } else {
        Seq::empty()
    }
}

pub struct ActionsService<R: Runner> {
    registry: CommandRegistry,
    executor: CommandExecutor<R>,
    policy_guard: PolicyGuard,
}

impl<R: Runner> ActionsService<R> {
    /// The commands this service may run.
    pub closed spec fn commands(&self) -> Seq<CommandSpecView> {
        self.registry@
    }

    /// Whether destructive commands are skipped.
    pub closed spec fn safe_mode(&self) -> bool {
        self.executor.safe_mode()
    }

    /// The executor that runs the commands.
    pub closed spec fn execution(&self) -> CommandExecutor<R> {
        self.executor
    }

    pub fn new(registry: CommandRegistry, executor: CommandExecutor<R>) -> (s: Self)
        ensures
            s.commands() == registry@,
            s.safe_mode() == executor.safe_mode(),
            s.execution() == executor,
    {
        ActionsService { registry, executor, policy_guard: PolicyGuard }
    }

    fn listing(&self, id: &str, owner: &str, repo: &str, limit: u16, trace: &TraceContext) -> (r:
        Result<String, AppError>)
        ensures
            checked_payload(
                first_failure(owner_repo_check(owner@, repo@), limit_check(limit)),
                self.execution(),
                self.commands(),
                id@,
                listing_args(owner@, repo@, limit),
                r,
            ),
    {
        require_owner_repo(owner, repo)?;
        require_limit(limit)?;
        let mut args = no_args();
        push_str_arg(&mut args, "--repo");
        push_arg(&mut args, slash_join(owner, repo));
        push_str_arg(&mut args, "--limit");
        push_arg(&mut args, decimal_string(limit as u64));
        push_str_arg(&mut args, "--all");
        assert(texts(args@) =~= listing_args(owner@, repo@, limit));
        run_payload(&self.registry, &self.executor, id, &args, trace)
    }

    /// Lists the workflows of a repository; the result is the command's JSON
    /// output.
    pub fn list_workflows(&self, owner: &str, repo: &str, limit: u16, trace: &TraceContext) -> (r:
        Result<String, AppError>)
        ensures
            checked_payload(
                first_failure(owner_repo_check(owner@, repo@), limit_check(limit)),
                self.execution(),
                self.commands(),
                "workflow.list"@,
                listing_args(owner@, repo@, limit),
                r,
            ),
    {
        self.listing("workflow.list", owner, repo, limit, trace)
    }

    /// Lists the workflow runs of a repository; the result is the command's
    /// JSON output.
    pub fn list_runs(&self, owner: &str, repo: &str, limit: u16, trace: &TraceContext) -> (r:
        Result<String, AppError>)
        ensures
            checked_payload(
                first_failure(owner_repo_check(owner@, repo@), limit_check(limit)),
                self.execution(),
                self.commands(),
                "run.list"@,
                listing_args(owner@, repo@, limit),
                r,
            ),
    {
        self.listing("run.list", owner, repo, limit, trace)
    }

    pub fn rerun(
        &self,
        permission: RepoPermission,
        input: &RunActionInput,
        failed_only: bool,
        trace: &TraceContext,
    ) -> (r: Result<(), AppError>)
        ensures
            guarded_unit(
                RepoPermission::Write,
                permission,
                "run.rerun"@,
                input.invalid(),
                self.execution(),
                self.commands(),
                run_args(*input, failed_only),
                r,
            ),
    {
        self.policy_guard.require(RepoPermission::Write, permission, "run.rerun")?;
        input.validate()?;
        let mut args = no_args();
        push_arg(&mut args, decimal_string(input.run_id));
        push_str_arg(&mut args, "--repo");
        push_arg(&mut args, slash_join(input.owner.as_str(), input.repo.as_str()));
        if failed_only {
            push_str_arg(&mut args, "--failed");
        }
        assert(texts(args@) =~= run_args(*input, failed_only));
        run_unit(&self.registry, &self.executor, "run.rerun", &args, trace)
    }

    pub fn cancel(&self, permission: RepoPermission, input: &RunActionInput, trace: &TraceContext) -> (r:
        Result<(), AppError>)
        ensures
            guarded_unit(
                RepoPermission::Write,
                permission,
                "run.cancel"@,
                input.invalid(),
                self.execution(),
                self.commands(),
                run_args(*input, false),
                r,
            ),
    {
        self.policy_guard.require(RepoPermission::Write, permission, "run.cancel")?;
        input.validate()?;
        let mut args = no_args();
        push_arg(&mut args, decimal_string(input.run_id));
        push_str_arg(&mut args, "--repo");
        push_arg(&mut args, slash_join(input.owner.as_str(), input.repo.as_str()));
        assert(texts(args@) =~= run_args(*input, false));
        run_unit(&self.registry, &self.executor, "run.cancel", &args, trace)
    }
}

} // verus!
