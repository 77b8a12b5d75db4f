//! The repositories commands as the front end calls them: each takes the request id
//! that traces it and forwards to the service.
use vstd::prelude::*;
use crate::engine::command_registry::CommandSpecView;
use crate::engine::error::AppError;
use crate::engine::executor::{CommandExecutor, Runner};
use crate::engine::observability::TraceContext;

use crate::engine::invocation::{checked_payload, command_output, first_failure, guarded_unit, limit_check, optional_check, owner_repo_check, payload_result, required_check};
use crate::engine::policy_guard::{RepoPermission, guard_outcome};
use crate::features::repositories::service::{CreateBranchInput, CreateRepositoryInput, DeleteBranchInput, EditRepositoryInput, RepositoriesService, branches_args, commits_args, create_args, create_branch_args, delete_args, branch_steps, delete_branch_args, edit_steps, list_args, ref_args};

verus! {

pub struct RepositoriesCommandHandler<R: Runner> {
    service: RepositoriesService<R>,
}

impl<R: Runner> RepositoriesCommandHandler<R> {
    /// The commands the service may run.
    pub closed spec fn commands(&self) -> Seq<CommandSpecView> {
        self.service.commands()
    }

    /// Whether destructive commands are skipped.
    pub closed spec fn safe_mode(&self) -> bool {
        self.service.safe_mode()
    }

    /// The executor that runs the commands.
    pub closed spec fn execution(&self) -> CommandExecutor<R> {
        self.service.execution()
    }

    pub fn new(service: RepositoriesService<R>) -> (h: Self)
        ensures
            h.commands() == service.commands(),
            h.safe_mode() == service.safe_mode(),
            h.execution() == service.execution(),
    {
        RepositoriesCommandHandler { service }
    }

    pub fn list_repositories(
        &self,
        request_id: &str,
        owner: &str,
        limit: u16,
    ) -> (r: Result<String, AppError>)
        ensures
            checked_payload(
                first_failure(required_check(owner@, "owner is required"@), limit_check(limit)),
                self.execution(),
                self.commands(),
                "repo.list"@,
                list_args(owner@, limit),
                r,
            ),
    {
        let trace = TraceContext::new(request_id);
        self.service.list(owner, limit, &trace)
    }

    pub fn create_repository(
        &self,
        request_id: &str,
        permission: RepoPermission,
        input: &CreateRepositoryInput,
    ) -> (r: Result<(), AppError>)
        ensures
            guarded_unit(
                RepoPermission::Write,
                permission,
                "repo.create"@,
                first_failure(
                    input.invalid(),
                    optional_check(
                        input.description,
                        "description must not be empty when provided"@,
                    ),
                ),
                self.execution(),
                self.commands(),
                create_args(*input),
                r,
            ),
    {
        let trace = TraceContext::new(request_id);
        self.service.create(permission, input, &trace)
    }

    pub fn edit_repository(
        &self,
        request_id: &str,
        permission: RepoPermission,
        input: &EditRepositoryInput,
    ) -> (r: Result<(), AppError>)
        ensures
            match first_failure(
                guard_outcome(RepoPermission::Admin, permission, "repo.edit"@),
                input.invalid(),
            ) {
                Some(v) => r matches Err(e) && e.is(v),
                None => edit_steps(self.execution(), self.commands(), *input, r),
            },
    {
        let trace = TraceContext::new(request_id);
        self.service.edit(permission, input, &trace)
    }

    pub fn list_branches(
        &self,
        request_id: &str,
        owner: &str,
        repo: &str,
        limit: u16,
    ) -> (r: Result<String, AppError>)
        ensures
            checked_payload(
                first_failure(owner_repo_check(owner@, repo@), limit_check(limit)),
                self.execution(),
                self.commands(),
                "repo.branches.list"@,
                branches_args(owner@, repo@, limit),
                r,
            ),
    {
        let trace = TraceContext::new(request_id);
        self.service.list_branches(owner, repo, limit, &trace)
    }

    pub fn list_commits(
        &self,
        request_id: &str,
        owner: &str,
        repo: &str,
        branch: Option<&str>,
        limit: u16,
    ) -> (r: Result<String, AppError>)
        ensures
            checked_payload(
                first_failure(
                    owner_repo_check(owner@, repo@),
                    first_failure(
                        limit_check(limit),
                        match branch {
                            Some(b) => required_check(
                                b@,
                                "branch must not be empty when provided"@,
                            ),
                            None => None,
                        },
                    ),
                ),
                self.execution(),
                self.commands(),
                "repo.commits.list"@,
                commits_args(
                    owner@,
                    repo@,
                    match branch {
                        Some(b) => Some(b@),
                        None => None,
                    },
                    limit,
                ),
                r,
            ),
    {
        let trace = TraceContext::new(request_id);
        self.service.list_commits(owner, repo, branch, limit, &trace)
    }

    pub fn get_source_ref(
        &self,
        request_id: &str,
        permission: RepoPermission,
        input: &CreateBranchInput,
    ) -> (r: Result<String, AppError>)
        ensures
            match first_failure(
                guard_outcome(RepoPermission::Write, permission, "repo.branch.create"@),
                input.invalid(),
            ) {
                Some(v) => r matches Err(e) && e.is(v),
                None => payload_result(
                    self.execution(),
                    self.commands(),
                    "repo.branch.ref.get"@,
                    ref_args(*input),
                    r,
                ),
            },
    {
        let trace = TraceContext::new(request_id);
        self.service.get_source_ref(permission, input, &trace)
    }

    pub fn create_branch(
        &self,
        request_id: &str,
        permission: RepoPermission,
        input: &CreateBranchInput,
    ) -> (r: Result<(), AppError>)
        ensures
            match first_failure(
                guard_outcome(RepoPermission::Write, permission, "repo.branch.create"@),
                input.invalid(),
            ) {
                Some(v) => r matches Err(e) && e.is(v),
                None => exists|o: Result<(Seq<char>, Seq<char>), AppError>|
                    #[trigger] command_output(
                        self.execution(),
                        self.commands(),
                        "repo.branch.ref.get"@,
                        ref_args(*input),
                        o,
                    ) && branch_steps(self.execution(), self.commands(), *input, o, r),
            },
    {
        let trace = TraceContext::new(request_id);
        let r = self.service.create_branch(permission, input, &trace);
        proof {
            if first_failure(
                guard_outcome(RepoPermission::Write, permission, "repo.branch.create"@),
                input.invalid(),
            ) is None {
                let o = choose|o: Result<(Seq<char>, Seq<char>), AppError>|
                    #[trigger] command_output(
                        self.service.execution(),
                        self.service.commands(),
                        "repo.branch.ref.get"@,
                        ref_args(*input),
                        o,
                    ) && branch_steps(self.service.execution(), self.service.commands(), *input, o, r);
                assert(command_output(self.execution(), self.commands(), "repo.branch.ref.get"@, ref_args(*input), o));
            }
        }
        r
    }

    pub fn delete_branch(
        &self,
        request_id: &str,
        permission: RepoPermission,
        input: &DeleteBranchInput,
    ) -> (r: Result<(), AppError>)
        ensures
            guarded_unit(
                RepoPermission::Write,
                permission,
                "repo.branch.delete"@,
                input.invalid(),
                self.execution(),
                self.commands(),
                delete_branch_args(*input),
                r,
            ),
    {
        let trace = TraceContext::new(request_id);
        self.service.delete_branch(permission, input, &trace)
    }

    pub fn delete_repository(
        &self,
        request_id: &str,
        permission: RepoPermission,
        owner: &str,
        repo: &str,
    ) -> (r: Result<(), AppError>)
        ensures
            guarded_unit(
                RepoPermission::Admin,
                permission,
                "repo.delete"@,
                owner_repo_check(owner@, repo@),
                self.execution(),
                self.commands(),
                delete_args(owner@, repo@),
                r,
            ),
    {
        let trace = TraceContext::new(request_id);
        self.service.delete(permission, owner, repo, &trace)
    }

}

} // verus!
