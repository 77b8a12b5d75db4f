//! Projects of a repository: listing projects and their items, adding an item.
use vstd::prelude::*;
use crate::engine::command_registry::{CommandRegistry, CommandSpecView, texts};
use crate::engine::error::{AppError, ErrorView, validation_view};
use crate::engine::executor::{CommandExecutor, Runner};
use crate::engine::invocation::{
    check_result, checked_payload, first_failure, guarded_payload, limit_check, no_args,
    nonzero_check, owner_repo_check, push_arg, push_str_arg, require_limit, require_nonzero,
    require_owner_repo, run_payload,
};
use crate::engine::observability::TraceContext;
use crate::engine::policy_guard::{PolicyGuard, RepoPermission};
use crate::text::{blank, concat, decimal, decimal_string, is_blank};

verus! {

broadcast use vstd::string::group_string_axioms;

pub const LIST_PROJECTS_QUERY: &'static str = "query($owner:String!,$repo:String!,$limit:Int!){repository(owner:$owner,name:$repo){projectsV2(first:$limit,orderBy:{field:UPDATED_AT,direction:DESC}){nodes{id title url closed}}}}";

pub const LIST_PROJECT_ITEMS_QUERY: &'static str = "query($owner:String!,$repo:String!,$project_number:Int!,$limit:Int!){repository(owner:$owner,name:$repo){projectsV2(number:$project_number){items(first:$limit){nodes{id content{__typename ... on Issue {title url} ... on PullRequest {title url} ... on DraftIssue {title}}}}}}}";

pub const ADD_PROJECT_ITEM_MUTATION: &'static str = "mutation($project_id:ID!,$content_id:ID!){addProjectV2ItemById(input:{projectId:$project_id,contentId:$content_id}){item{id}}}";

#[derive(Debug, Clone, PartialEq, Eq)]
pub struct AddProjectItemInput {
    pub project_id: String,
    pub content_id: String,
}

impl AddProjectItemInput {
    pub open spec fn invalid(&self) -> Option<ErrorView> {
        if is_blank(self.project_id@) || is_blank(self.content_id@) {
            Some(validation_view("project_id and content_id are required"@))
        } else {
            None
        }
    }

    pub fn validate(&self) -> (r: Result<(), AppError>)
        ensures
            check_result(self.invalid(), r),
    {
        if blank(self.project_id.as_str()) || blank(self.content_id.as_str()) {
            return Err(AppError::validation("project_id and content_id are required"));
        }
        Ok(())
    }
}

pub open spec fn list_args(owner: Seq<char>, repo: Seq<char>, limit: u16) -> Seq<Seq<char>> {
    seq![
        "-f"@,
        "query="@ + LIST_PROJECTS_QUERY@,
        "-F"@,
        "owner="@ + owner,
        "-F"@,
        "repo="@ + repo,
        "-F"@,
        "limit="@ + decimal(limit as nat),
    ]
}

pub open spec fn items_args(owner: Seq<char>, repo: Seq<char>, project_number: u32, limit: u16) -> Seq<
    Seq<char>,
> {
    seq![
        "-f"@,
        "query="@ + LIST_PROJECT_ITEMS_QUERY@,
        "-F"@,
        "owner="@ + owner,
        "-F"@,
        "repo="@ + repo,
        "-F"@,
        "project_number="@ + decimal(project_number as nat),
        "-F"@,
        "limit="@ + decimal(limit as nat),
    ]
}

pub open spec fn add_item_args(input: AddProjectItemInput) -> Seq<Seq<char>> {
    seq![
        "-f"@,
        "query="@ + ADD_PROJECT_ITEM_MUTATION@,
        "-F"@,
        "project_id="@ + input.project_id@,
        "-F"@,
        "content_id="@ + input.content_id@,
    ]
}

pub struct ProjectsService<R: Runner> {
    registry: CommandRegistry,
    executor: CommandExecutor<R>,
    policy_guard: PolicyGuard,
}

impl<R: Runner> ProjectsService<R> {
    /// The commands this service may run.
    pub closed spec fn commands(&self) -> Seq<CommandSpecView> {
        self.registry@
    }

    /// Whether destructive commands are skipped.
    pub closed spec fn safe_mode(&self) -> bool {
        self.executor.safe_mode()
    }

    /// The executor that runs the commands.
    pub closed spec fn execution(&self) -> CommandExecutor<R> {
        self.executor
    }

    pub fn new(registry: CommandRegistry, executor: CommandExecutor<R>) -> (s: Self)
        ensures
            s.commands() == registry@,
            s.safe_mode() == executor.safe_mode(),
            s.execution() == executor,
    {
        ProjectsService { registry, executor, policy_guard: PolicyGuard }
    }

    /// Lists the projects of a repository, most recently updated first; the
    /// result is the GraphQL response.
    pub fn list(&self, owner: &str, repo: &str, limit: u16, trace: &TraceContext) -> (r: Result<
        String,
        AppError,
    >)
        ensures
            checked_payload(
                first_failure(owner_repo_check(owner@, repo@), limit_check(limit)),
                self.execution(),
                self.commands(),
                "projects.list"@,
                list_args(owner@, repo@, limit),
                r,
            ),
    {
        require_owner_repo(owner, repo)?;
        require_limit(limit)?;
        let mut args = no_args();
        push_str_arg(&mut args, "-f");
        push_arg(&mut args, concat("query=", LIST_PROJECTS_QUERY));
        push_str_arg(&mut args, "-F");
        push_arg(&mut args, concat("owner=", owner));
        push_str_arg(&mut args, "-F");
        push_arg(&mut args, concat("repo=", repo));
        push_str_arg(&mut args, "-F");
        let count = decimal_string(limit as u64);
        push_arg(&mut args, concat("limit=", count.as_str()));
        assert(texts(args@) =~= list_args(owner@, repo@, limit));
        run_payload(&self.registry, &self.executor, "projects.list", &args, trace)
    }

    /// Lists the items of one project; the result is the GraphQL response.
    pub fn list_items(
        &self,
        owner: &str,
        repo: &str,
        project_number: u32,
        limit: u16,
        trace: &TraceContext,
    ) -> (r: Result<String, AppError>)
        ensures
            checked_payload(
                first_failure(
                    owner_repo_check(owner@, repo@),
                    first_failure(
                        nonzero_check(project_number as int, "project_number must be greater than 0"@),
                        limit_check(limit),
                    ),
                ),
                self.execution(),
                self.commands(),
                "projects.items.list"@,
                items_args(owner@, repo@, project_number, limit),
                r,
            ),
    {
        require_owner_repo(owner, repo)?;
        require_nonzero(project_number as u64, "project_number must be greater than 0")?;
        require_limit(limit)?;
        let mut args = no_args();
        push_str_arg(&mut args, "-f");
        push_arg(&mut args, concat("query=", LIST_PROJECT_ITEMS_QUERY));
        push_str_arg(&mut args, "-F");
        push_arg(&mut args, concat("owner=", owner));
        push_str_arg(&mut args, "-F");
        push_arg(&mut args, concat("repo=", repo));
        push_str_arg(&mut args, "-F");
        let number = decimal_string(project_number as u64);
        push_arg(&mut args, concat("project_number=", number.as_str()));
        push_str_arg(&mut args, "-F");
        let count = decimal_string(limit as u64);
        push_arg(&mut args, concat("limit=", count.as_str()));
        assert(texts(args@) =~= items_args(owner@, repo@, project_number, limit));
        run_payload(&self.registry, &self.executor, "projects.items.list", &args, trace)
    }

    /// Adds an issue or pull request to a project; the result is the GraphQL
    /// response, which holds the new item's id.
    pub fn add_item(&self, permission: RepoPermission, input: &AddProjectItemInput, trace: &TraceContext) -> (r:
        Result<String, AppError>)
        ensures
            guarded_payload(
                RepoPermission::Write,
                permission,
                "projects.items.add"@,
                input.invalid(),
                self.execution(),
                self.commands(),
                add_item_args(*input),
                r,
            ),
    {
        self.policy_guard.require(RepoPermission::Write, permission, "projects.items.add")?;
        input.validate()?;
        let mut args = no_args();
        push_str_arg(&mut args, "-f");
        push_arg(&mut args, concat("query=", ADD_PROJECT_ITEM_MUTATION));
        push_str_arg(&mut args, "-F");
        push_arg(&mut args, concat("project_id=", input.project_id.as_str()));
        push_str_arg(&mut args, "-F");
        push_arg(&mut args, concat("content_id=", input.content_id.as_str()));
        assert(texts(args@) =~= add_item_args(*input));
        run_payload(&self.registry, &self.executor, "projects.items.add", &args, trace)
    }
}

} // verus!
