//! GitHub Pages: reading, creating, updating and deleting a repository's site.
use vstd::prelude::*;
use crate::engine::command_registry::{CommandRegistry, CommandSpecView, texts};
use crate::engine::error::{AppError, ErrorView};
use crate::engine::executor::{CommandExecutor, Runner};
use crate::engine::invocation::{
    check_result, checked_payload, first_failure, guarded_payload, guarded_unit, no_args,
    optional_check, optional_field, owner_repo_check, push_arg, push_optional_field,
    push_str_arg, repo_path, repo_path_string, require_optional_text, require_owner_repo,
    require_text, required_check, run_payload, run_unit,
};
use crate::engine::observability::TraceContext;
use crate::engine::policy_guard::{PolicyGuard, RepoPermission};
use crate::text::concat;

verus! {

broadcast use vstd::string::group_string_axioms;

#[derive(Debug, Clone, PartialEq, Eq)]
pub struct ConfigurePagesInput {
    pub owner: String,
    pub repo: String,
    pub branch: String,
    pub path: String,
    pub build_type: Option<String>,
    pub cname: Option<String>,
}

impl ConfigurePagesInput {
    pub open spec fn invalid(&self) -> Option<ErrorView> {
        first_failure(
            owner_repo_check(self.owner@, self.repo@),
            first_failure(
                required_check(self.branch@, "branch is required"@),
                first_failure(
                    required_check(self.path@, "path is required"@),
                    first_failure(
                        optional_check(self.build_type, "build_type must not be empty when provided"@),
                        optional_check(self.cname, "cname must not be empty when provided"@),
                    ),
                ),
            ),
        )
    }

    pub fn validate(&self) -> (r: Result<(), AppError>)
        ensures
            check_result(self.invalid(), r),
    {
        require_owner_repo(self.owner.as_str(), self.repo.as_str())?;
        require_text(self.branch.as_str(), "branch is required")?;
        require_text(self.path.as_str(), "path is required")?;
        require_optional_text(&self.build_type, "build_type must not be empty when provided")?;
        require_optional_text(&self.cname, "cname must not be empty when provided")
    }
}

#[derive(Debug, Clone, PartialEq, Eq)]
pub struct DeletePagesInput {
    pub owner: String,
    pub repo: String,
}

impl DeletePagesInput {
    pub open spec fn invalid(&self) -> Option<ErrorView> {
        owner_repo_check(self.owner@, self.repo@)
    }

    pub fn validate(&self) -> (r: Result<(), AppError>)
        ensures
            check_result(self.invalid(), r),
    {
        require_owner_repo(self.owner.as_str(), self.repo.as_str())
    }
}

/// The arguments that create and update send: the source branch and path,
/// then the build type and custom domain when given.
pub open spec fn configure_args(input: ConfigurePagesInput) -> Seq<Seq<char>> {
    seq![
        repo_path(input.owner@, input.repo@, "/pages"@),
        "-F"@,
        "source[branch]="@ + input.branch@,
        "-F"@,
        "source[path]="@ + input.path@,
    ] + optional_field("-F"@, "build_type="@, input.build_type) + optional_field(
        "-F"@,
        "cname="@,
        input.cname,
    )
}

pub struct PagesService<R: Runner> {
    registry: CommandRegistry,
    executor: CommandExecutor<R>,
    policy_guard: PolicyGuard,
}

impl<R: Runner> PagesService<R> {
    /// The commands this service may run.
    pub closed spec fn commands(&self) -> Seq<CommandSpecView> {
        self.registry@
    }

    /// Whether destructive commands are skipped.
    pub closed spec fn safe_mode(&self) -> bool {
        self.executor.safe_mode()
    }

    /// The executor that runs the commands.
    pub closed spec fn execution(&self) -> CommandExecutor<R> {
        self.executor
    }

    pub fn new(registry: CommandRegistry, executor: CommandExecutor<R>) -> (s: Self)
        ensures
            s.commands() == registry@,
            s.safe_mode() == executor.safe_mode(),
            s.execution() == executor,
    {
        PagesService { registry, executor, policy_guard: PolicyGuard }
    }

    /// Reads the site of a repository; the result is the command's JSON output.
    pub fn get(&self, owner: &str, repo: &str, trace: &TraceContext) -> (r: Result<String, AppError>)
        ensures
            checked_payload(
                owner_repo_check(owner@, repo@),
                self.execution(),
                self.commands(),
                "pages.get"@,
                seq![repo_path(owner@, repo@, "/pages"@)],
                r,
            ),
    {
        require_owner_repo(owner, repo)?;
        let mut args = no_args();
        push_arg(&mut args, repo_path_string(owner, repo, "/pages"));
        assert(texts(args@) =~= seq![repo_path(owner@, repo@, "/pages"@)]);
        run_payload(&self.registry, &self.executor, "pages.get", &args, trace)
    }

    fn configure(
        &self,
        id: &str,
        permission: RepoPermission,
        input: &ConfigurePagesInput,
        trace: &TraceContext,
    ) -> (r: Result<String, AppError>)
        ensures
            guarded_payload(
                RepoPermission::Admin,
                permission,
                id@,
                input.invalid(),
                self.execution(),
                self.commands(),
                configure_args(*input),
                r,
            ),
    {
        self.policy_guard.require(RepoPermission::Admin, permission, id)?;
        input.validate()?;
        let mut args = no_args();
        push_arg(&mut args, repo_path_string(input.owner.as_str(), input.repo.as_str(), "/pages"));
        push_str_arg(&mut args, "-F");
        push_arg(&mut args, concat("source[branch]=", input.branch.as_str()));
        push_str_arg(&mut args, "-F");
        push_arg(&mut args, concat("source[path]=", input.path.as_str()));
        push_optional_field(&mut args, "-F", "build_type=", &input.build_type);
        push_optional_field(&mut args, "-F", "cname=", &input.cname);
        assert(texts(args@) =~= configure_args(*input));
        run_payload(&self.registry, &self.executor, id, &args, trace)
    }

    /// Creates the site; the result is the command's JSON output.
    pub fn create(
        &self,
        permission: RepoPermission,
        input: &ConfigurePagesInput,
        trace: &TraceContext,
    ) -> (r: Result<String, AppError>)
        ensures
            guarded_payload(
                RepoPermission::Admin,
                permission,
                "pages.create"@,
                input.invalid(),
                self.execution(),
                self.commands(),
                configure_args(*input),
                r,
            ),
    {
        self.configure("pages.create", permission, input, trace)
    }

    /// Changes the site; the result is the command's JSON output.
    pub fn update(
        &self,
        permission: RepoPermission,
        input: &ConfigurePagesInput,
        trace: &TraceContext,
    ) -> (r: Result<String, AppError>)
        ensures
            guarded_payload(
                RepoPermission::Admin,
                permission,
                "pages.update"@,
                input.invalid(),
                self.execution(),
                self.commands(),
                configure_args(*input),
                r,
            ),
    {
        self.configure("pages.update", permission, input, trace)
    }

    pub fn delete(&self, permission: RepoPermission, input: &DeletePagesInput, trace: &TraceContext) -> (r:
        Result<(), AppError>)
        ensures
            guarded_unit(
                RepoPermission::Admin,
                permission,
                "pages.delete"@,
                input.invalid(),
                self.execution(),
                self.commands(),
                seq![repo_path(input.owner@, input.repo@, "/pages"@)],
                r,
            ),
    {
        self.policy_guard.require(RepoPermission::Admin, permission, "pages.delete")?;
        input.validate()?;
        let mut args = no_args();
        push_arg(&mut args, repo_path_string(input.owner.as_str(), input.repo.as_str(), "/pages"));
        assert(texts(args@) =~= seq![repo_path(input.owner@, input.repo@, "/pages"@)]);
        run_unit(&self.registry, &self.executor, "pages.delete", &args, trace)
    }
}

} // verus!
