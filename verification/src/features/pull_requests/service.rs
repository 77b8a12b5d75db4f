//! Pull requests: listing, creating, reviewing and merging them.
use vstd::prelude::*;
use crate::engine::command_registry::{CommandRegistry, CommandSpecView, texts};
use crate::engine::error::{AppError, ErrorView, validation_view};
use crate::engine::executor::{CommandExecutor, Runner};
use crate::engine::invocation::{
    check_result, checked_payload, first_failure, guarded_payload, guarded_unit, limit_check,
    no_args, nonzero_check, optional_check, optional_pair, owner_repo_check, push_arg,
    push_optional_pair, push_str_arg, require_limit, require_nonzero, require_optional_text,
    require_owner_repo, require_text, required_check, run_payload, run_unit, slash, slash_join,
};
use crate::engine::observability::TraceContext;
use crate::engine::policy_guard::{PolicyGuard, RepoPermission};
use crate::text::{blank, decimal, decimal_string, is_blank};

verus! {

broadcast use vstd::string::group_string_axioms;

#[derive(Debug, Clone, PartialEq, Eq)]
pub struct CreatePullRequestInput {
    pub owner: String,
    pub repo: String,
    pub title: String,
    pub head: String,
    pub base: String,
    pub body: Option<String>,
    pub draft: bool,
}

impl CreatePullRequestInput {
    pub open spec fn invalid(&self) -> Option<ErrorView> {
        first_failure(
            owner_repo_check(self.owner@, self.repo@),
            first_failure(
                required_check(self.title@, "title is required"@),
                first_failure(
                    if is_blank(self.head@) || is_blank(self.base@) {
                        Some(validation_view("head and base are required"@))
                    } else {
                        None
                    },
                    optional_check(self.body, "body must not be empty when provided"@),
                ),
            ),
        )
    }

    pub fn validate(&self) -> (r: Result<(), AppError>)
        ensures
            check_result(self.invalid(), r),
    {
        require_owner_repo(self.owner.as_str(), self.repo.as_str())?;
        require_text(self.title.as_str(), "title is required")?;
        if blank(self.head.as_str()) || blank(self.base.as_str()) {
            return Err(AppError::validation("head and base are required"));
        }
        require_optional_text(&self.body, "body must not be empty when provided")
    }
}

#[derive(Debug, Clone, Copy, PartialEq, Eq, Structural)]
pub enum ReviewEvent {
    Approve,
    RequestChanges,
    Comment,
}

pub open spec fn review_flag(e: ReviewEvent) -> Seq<char> {
    match e {
        ReviewEvent::Approve => "--approve"@,
        ReviewEvent::RequestChanges => "--request-changes"@,
        ReviewEvent::Comment => "--comment"@,
    }
}

impl ReviewEvent {
    fn as_flag(self) -> (s: &'static str)
        ensures
            s@ == review_flag(self),
    {
        match self {
            ReviewEvent::Approve => "--approve",
            ReviewEvent::RequestChanges => "--request-changes",
            ReviewEvent::Comment => "--comment",
        }
    }
}

/// The check of a pull request number.
pub open spec fn pr_number_check(number: u64) -> Option<ErrorView> {
    nonzero_check(number as int, "pull request number must be greater than 0"@)
}

#[derive(Debug, Clone, PartialEq, Eq)]
pub struct ReviewPullRequestInput {
    pub owner: String,
    pub repo: String,
    pub number: u64,
    pub event: ReviewEvent,
    pub body: Option<String>,
}

impl ReviewPullRequestInput {
    pub open spec fn invalid(&self) -> Option<ErrorView> {
        first_failure(
            owner_repo_check(self.owner@, self.repo@),
            first_failure(
                pr_number_check(self.number),
                optional_check(self.body, "body must not be empty when provided"@),
            ),
        )
    }

    pub fn validate(&self) -> (r: Result<(), AppError>)
        ensures
            check_result(self.invalid(), r),
    {
        require_owner_repo(self.owner.as_str(), self.repo.as_str())?;
        require_nonzero(self.number, "pull request number must be greater than 0")?;
        require_optional_text(&self.body, "body must not be empty when provided")
    }
}

#[derive(Debug, Clone, Copy, PartialEq, Eq, Structural)]
pub enum MergeMethod {
    Merge,
    Squash,
    Rebase,
}

pub open spec fn merge_flag(m: MergeMethod) -> Seq<char> {
    match m {
        MergeMethod::Merge => "--merge"@,
        MergeMethod::Squash => "--squash"@,
        MergeMethod::Rebase => "--rebase"@,
    }
}

impl MergeMethod {
    fn as_flag(self) -> (s: &'static str)
        ensures
            s@ == merge_flag(self),
    {
        match self {
            MergeMethod::Merge => "--merge",
            MergeMethod::Squash => "--squash",
            MergeMethod::Rebase => "--rebase",
        }
    }
}

#[derive(Debug, Clone, PartialEq, Eq)]
pub struct MergePullRequestInput {
    pub owner: String,
    pub repo: String,
    pub number: u64,
    pub method: MergeMethod,
    pub delete_branch: bool,
    pub auto: bool,
}

impl MergePullRequestInput {
    pub open spec fn invalid(&self) -> Option<ErrorView> {
        first_failure(owner_repo_check(self.owner@, self.repo@), pr_number_check(self.number))
    }

    pub fn validate(&self) -> (r: Result<(), AppError>)
        ensures
            check_result(self.invalid(), r),
    {
        require_owner_repo(self.owner.as_str(), self.repo.as_str())?;
        require_nonzero(self.number, "pull request number must be greater than 0")
    }
}

pub open spec fn list_args(owner: Seq<char>, repo: Seq<char>, limit: u16) -> Seq<Seq<char>> {
    seq!["--repo"@, slash(owner, repo), "--limit"@, decimal(limit as nat)]
}

pub open spec fn create_args(input: CreatePullRequestInput) -> Seq<Seq<char>> {
    seq![
        "--repo"@,
        slash(input.owner@, input.repo@),
        "--title"@,
        input.title@,
        "--head"@,
        input.head@,
        "--base"@,
        input.base@,
    ] + optional_pair("--body"@, input.body) + if input.draft {
        seq!["--draft"@]
    } else {
        Seq::empty()
    }
}

pub open spec fn review_args(input: ReviewPullRequestInput) -> Seq<Seq<char>> {
    seq![
        decimal(input.number as nat),
        "--repo"@,
        slash(input.owner@, input.repo@),
        review_flag(input.event),
    ] + optional_pair("--body"@, input.body)
}

pub open spec fn merge_args(input: MergePullRequestInput) -> Seq<Seq<char>> {
    seq![
        decimal(input.number as nat),
        "--repo"@,
        slash(input.owner@, input.repo@),
        merge_flag(input.method),
    ] + (if input.delete_branch {
        seq!["--delete-branch"@]
    } else {
        Seq::empty()
    }) + if input.auto {
        seq!["--auto"@]
    } else {
        Seq::empty()
    }
}

pub struct PullRequestsService<R: Runner> {
    registry: CommandRegistry,
    executor: CommandExecutor<R>,
    policy_guard: PolicyGuard,
}

impl<R: Runner> PullRequestsService<R> {
    /// The commands this service may run.
    pub closed spec fn commands(&self) -> Seq<CommandSpecView> {
        self.registry@
    }

    /// Whether destructive commands are skipped.
    pub closed spec fn safe_mode(&self) -> bool {
        self.executor.safe_mode()
    }

    /// The executor that runs the commands.
    pub closed spec fn execution(&self) -> CommandExecutor<R> {
        self.executor
    }

    pub fn new(registry: CommandRegistry, executor: CommandExecutor<R>) -> (s: Self)
        ensures
            s.commands() == registry@,
            s.safe_mode() == executor.safe_mode(),
            s.execution() == executor,
    {
        PullRequestsService { registry, executor, policy_guard: PolicyGuard }
    }

    /// Lists the pull requests of a repository; the result is the command's
    /// JSON output.
    pub fn list(&self, owner: &str, repo: &str, limit: u16, trace: &TraceContext) -> (r: Result<
        String,
        AppError,
    >)
        ensures
            checked_payload(
                first_failure(owner_repo_check(owner@, repo@), limit_check(limit)),
                self.execution(),
                self.commands(),
                "pr.list"@,
                list_args(owner@, repo@, limit),
                r,
            ),
    {
        require_owner_repo(owner, repo)?;
        require_limit(limit)?;
        let mut args = no_args();
        push_str_arg(&mut args, "--repo");
        push_arg(&mut args, slash_join(owner, repo));
        push_str_arg(&mut args, "--limit");
        push_arg(&mut args, decimal_string(limit as u64));
        assert(texts(args@) =~= list_args(owner@, repo@, limit));
        run_payload(&self.registry, &self.executor, "pr.list", &args, trace)
    }

    /// Opens a pull request; the result is the command's JSON output, which
    /// holds its number, URL and state.
    pub fn create(
        &self,
        permission: RepoPermission,
        input: &CreatePullRequestInput,
        trace: &TraceContext,
    ) -> (r: Result<String, AppError>)
        ensures
            guarded_payload(
                RepoPermission::Write,
                permission,
                "pr.create"@,
                input.invalid(),
                self.execution(),
                self.commands(),
                create_args(*input),
                r,
            ),
    {
        self.policy_guard.require(RepoPermission::Write, permission, "pr.create")?;
        input.validate()?;
        let mut args = no_args();
        push_str_arg(&mut args, "--repo");
        push_arg(&mut args, slash_join(input.owner.as_str(), input.repo.as_str()));
        push_str_arg(&mut args, "--title");
        push_str_arg(&mut args, input.title.as_str());
        push_str_arg(&mut args, "--head");
        push_str_arg(&mut args, input.head.as_str());
        push_str_arg(&mut args, "--base");
        push_str_arg(&mut args, input.base.as_str());
        push_optional_pair(&mut args, "--body", &input.body);
        if input.draft {
            push_str_arg(&mut args, "--draft");
        }
        assert(texts(args@) =~= create_args(*input));
        run_payload(&self.registry, &self.executor, "pr.create", &args, trace)
    }

    pub fn review(
        &self,
        permission: RepoPermission,
        input: &ReviewPullRequestInput,
        trace: &TraceContext,
    ) -> (r: Result<(), AppError>)
        ensures
            guarded_unit(
                RepoPermission::Write,
                permission,
                "pr.review"@,
                input.invalid(),
                self.execution(),
                self.commands(),
                review_args(*input),
                r,
            ),
    {
        self.policy_guard.require(RepoPermission::Write, permission, "pr.review")?;
        input.validate()?;
        let mut args = no_args();
        push_arg(&mut args, decimal_string(input.number));
        push_str_arg(&mut args, "--repo");
        push_arg(&mut args, slash_join(input.owner.as_str(), input.repo.as_str()));
        push_str_arg(&mut args, input.event.as_flag());
        push_optional_pair(&mut args, "--body", &input.body);
        assert(texts(args@) =~= review_args(*input));
        run_unit(&self.registry, &self.executor, "pr.review", &args, trace)
    }

    pub fn merge(
        &self,
        permission: RepoPermission,
        input: &MergePullRequestInput,
        trace: &TraceContext,
    ) -> (r: Result<(), AppError>)
        ensures
            guarded_unit(
                RepoPermission::Write,
                permission,
                "pr.merge"@,
                input.invalid(),
                self.execution(),
                self.commands(),
                merge_args(*input),
                r,
            ),
    {
        self.policy_guard.require(RepoPermission::Write, permission, "pr.merge")?;
        input.validate()?;
        let mut args = no_args();
        push_arg(&mut args, decimal_string(input.number));
        push_str_arg(&mut args, "--repo");
        push_arg(&mut args, slash_join(input.owner.as_str(), input.repo.as_str()));
        push_str_arg(&mut args, input.method.as_flag());
        if input.delete_branch {
            push_str_arg(&mut args, "--delete-branch");
        }
        if input.auto {
            push_str_arg(&mut args, "--auto");
        }
        assert(texts(args@) =~= merge_args(*input));
        run_unit(&self.registry, &self.executor, "pr.merge", &args, trace)
    }
}

} // verus!
