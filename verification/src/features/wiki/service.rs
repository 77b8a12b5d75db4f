//! The repository wiki: reading whether it is enabled, and turning it on or off.
use vstd::prelude::*;
use crate::engine::command_registry::{CommandRegistry, CommandSpecView, texts};
use crate::engine::error::{AppError, ErrorView};
use crate::engine::executor::{CommandExecutor, Runner};
use crate::engine::invocation::{
    check_result, checked_payload, guarded_unit, no_args, owner_repo_check, push_arg,
    push_str_arg, repo_path, repo_path_string, require_owner_repo, run_payload, run_unit,
};
use crate::engine::observability::TraceContext;
use crate::engine::policy_guard::{PolicyGuard, RepoPermission};
use crate::text::{bool_string, bool_text, concat};

verus! {

broadcast use vstd::string::group_string_axioms;

#[derive(Debug, Clone, PartialEq, Eq)]
pub struct UpdateWikiInput {
    pub owner: String,
    pub repo: String,
    pub enabled: bool,
}

impl UpdateWikiInput {
    pub open spec fn invalid(&self) -> Option<ErrorView> {
        owner_repo_check(self.owner@, self.repo@)
    }

    pub fn validate(&self) -> (r: Result<(), AppError>)
        ensures
            check_result(self.invalid(), r),
    {
        require_owner_repo(self.owner.as_str(), self.repo.as_str())
    }
}

pub open spec fn update_args(input: UpdateWikiInput) -> Seq<Seq<char>> {
    seq![repo_path(input.owner@, input.repo@, ""@), "-F"@, "has_wiki="@ + bool_text(input.enabled)]
}

pub struct WikiService<R: Runner> {
    registry: CommandRegistry,
    executor: CommandExecutor<R>,
    policy_guard: PolicyGuard,
}

impl<R: Runner> WikiService<R> {
    /// The commands this service may run.
    pub closed spec fn commands(&self) -> Seq<CommandSpecView> {
        self.registry@
    }

    /// Whether destructive commands are skipped.
    pub closed spec fn safe_mode(&self) -> bool {
        self.executor.safe_mode()
    }

    /// The executor that runs the commands.
    pub closed spec fn execution(&self) -> CommandExecutor<R> {
        self.executor
    }

    pub fn new(registry: CommandRegistry, executor: CommandExecutor<R>) -> (s: Self)
        ensures
            s.commands() == registry@,
            s.safe_mode() == executor.safe_mode(),
            s.execution() == executor,
    {
        WikiService { registry, executor, policy_guard: PolicyGuard }
    }

    /// Reads the repository record, which says whether the wiki is enabled;
    /// the result is the command's JSON output.
    pub fn get(&self, owner: &str, repo: &str, trace: &TraceContext) -> (r: Result<String, AppError>)
        ensures
            checked_payload(
                owner_repo_check(owner@, repo@),
                self.execution(),
                self.commands(),
                "wiki.get"@,
                seq![repo_path(owner@, repo@, ""@)],
                r,
            ),
    {
        require_owner_repo(owner, repo)?;
        let mut args = no_args();
        push_arg(&mut args, repo_path_string(owner, repo, ""));
        assert(texts(args@) =~= seq![repo_path(owner@, repo@, ""@)]);
        run_payload(&self.registry, &self.executor, "wiki.get", &args, trace)
    }

    pub fn update(&self, permission: RepoPermission, input: &UpdateWikiInput, trace: &TraceContext) -> (r:
        Result<(), AppError>)
        ensures
            guarded_unit(
                RepoPermission::Admin,
                permission,
                "wiki.update"@,
                input.invalid(),
                self.execution(),
                self.commands(),
                update_args(*input),
                r,
            ),
    {
        self.policy_guard.require(RepoPermission::Admin, permission, "wiki.update")?;
        input.validate()?;
        let mut args = no_args();
        push_arg(&mut args, repo_path_string(input.owner.as_str(), input.repo.as_str(), ""));
        push_str_arg(&mut args, "-F");
        let enabled = bool_string(input.enabled);
        push_arg(&mut args, concat("has_wiki=", enabled.as_str()));
        assert(texts(args@) =~= update_args(*input));
        run_unit(&self.registry, &self.executor, "wiki.update", &args, trace)
    }
}

} // verus!
