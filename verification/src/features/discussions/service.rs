//! Discussions: listing categories and discussions, creating, closing and
//! answering them.
use vstd::prelude::*;
use crate::engine::command_registry::{CommandRegistry, CommandSpecView, texts};
use crate::engine::error::{AppError, ErrorView, validation_view};
use crate::engine::executor::{CommandExecutor, Runner};
use crate::engine::invocation::{
    check_result, checked_payload, first_failure, guarded_payload, guarded_unit, limit_check,
    no_args, owner_repo_check, push_arg, push_str_arg, require_limit, require_owner_repo,
    require_text, required_check, run_payload, run_unit,
};
use crate::engine::observability::TraceContext;
use crate::engine::policy_guard::{PolicyGuard, RepoPermission};
use crate::features::discussions::dto::DiscussionResolvedIds;
use crate::text::{blank, concat, decimal, decimal_string, is_blank};

verus! {

broadcast use vstd::string::group_string_axioms;

pub const LIST_CATEGORIES_QUERY: &'static str = "query($owner:String!,$repo:String!,$limit:Int!){repository(owner:$owner,name:$repo){discussionCategories(first:$limit){nodes{id name slug isAnswerable}}}}";

pub const LIST_DISCUSSIONS_QUERY: &'static str = "query($owner:String!,$repo:String!,$limit:Int!){repository(owner:$owner,name:$repo){discussions(first:$limit,orderBy:{field:UPDATED_AT,direction:DESC}){nodes{id number title url locked isAnswered category{name} author{login}}}}}";

pub const RESOLVE_IDS_QUERY: &'static str = "query($owner:String!,$repo:String!,$limit:Int!){repository(owner:$owner,name:$repo){id discussionCategories(first:$limit){nodes{id name slug isAnswerable}}}}";

pub const CREATE_DISCUSSION_MUTATION: &'static str = "mutation($repo_id:ID!,$category_id:ID!,$title:String!,$body:String!){createDiscussion(input:{repositoryId:$repo_id,categoryId:$category_id,title:$title,body:$body}){discussion{number url}}}";

pub const CLOSE_DISCUSSION_MUTATION: &'static str = "mutation($discussion_id:ID!){closeDiscussion(input:{discussionId:$discussion_id}){discussion{id}}}";

pub const MARK_ANSWER_MUTATION: &'static str = "mutation($comment_id:ID!){markDiscussionCommentAsAnswer(input:{id:$comment_id}){discussionComment{id}}}";

#[derive(Debug, Clone, PartialEq, Eq)]
pub struct CreateDiscussionInput {
    pub owner: String,
    pub repo: String,
    pub category_slug: String,
    pub title: String,
    pub body: String,
}

impl CreateDiscussionInput {
    pub open spec fn invalid(&self) -> Option<ErrorView> {
        first_failure(
            owner_repo_check(self.owner@, self.repo@),
            first_failure(
                required_check(self.category_slug@, "category_slug is required"@),
                if is_blank(self.title@) || is_blank(self.body@) {
                    Some(validation_view("title and body are required"@))
                } else {
                    None
                },
            ),
        )
    }

    pub fn validate(&self) -> (r: Result<(), AppError>)
        ensures
            check_result(self.invalid(), r),
    {
        require_owner_repo(self.owner.as_str(), self.repo.as_str())?;
        require_text(self.category_slug.as_str(), "category_slug is required")?;
        if blank(self.title.as_str()) || blank(self.body.as_str()) {
            return Err(AppError::validation("title and body are required"));
        }
        Ok(())
    }
}

#[derive(Debug, Clone, PartialEq, Eq)]
pub struct CloseDiscussionInput {
    pub discussion_id: String,
}

impl CloseDiscussionInput {
    pub open spec fn invalid(&self) -> Option<ErrorView> {
        required_check(self.discussion_id@, "discussion_id is required"@)
    }

    pub fn validate(&self) -> (r: Result<(), AppError>)
        ensures
            check_result(self.invalid(), r),
    {
        require_text(self.discussion_id.as_str(), "discussion_id is required")
    }
}

#[derive(Debug, Clone, PartialEq, Eq)]
pub struct MarkAnswerInput {
    pub comment_id: String,
}

impl MarkAnswerInput {
    pub open spec fn invalid(&self) -> Option<ErrorView> {
        required_check(self.comment_id@, "comment_id is required"@)
    }

    pub fn validate(&self) -> (r: Result<(), AppError>)
        ensures
            check_result(self.invalid(), r),
    {
        require_text(self.comment_id.as_str(), "comment_id is required")
    }
}

/// A GraphQL query over a repository with a result limit.
pub open spec fn query_args(query: Seq<char>, owner: Seq<char>, repo: Seq<char>, limit: Seq<char>) -> Seq<
    Seq<char>,
> {
    seq![
        "-f"@,
        "query="@ + query,
        "-F"@,
        "owner="@ + owner,
        "-F"@,
        "repo="@ + repo,
        "-F"@,
        "limit="@ + limit,
    ]
}

fn query_args_vec(query: &str, owner: &str, repo: &str, limit: &str) -> (args: Vec<String>)
    ensures
        texts(args@) == query_args(query@, owner@, repo@, limit@),
{
    let mut args = no_args();
    push_str_arg(&mut args, "-f");
    push_arg(&mut args, concat("query=", query));
    push_str_arg(&mut args, "-F");
    push_arg(&mut args, concat("owner=", owner));
    push_str_arg(&mut args, "-F");
    push_arg(&mut args, concat("repo=", repo));
    push_str_arg(&mut args, "-F");
    push_arg(&mut args, concat("limit=", limit));
    assert(texts(args@) =~= query_args(query@, owner@, repo@, limit@));
    args
}

pub open spec fn creation_args(input: CreateDiscussionInput, ids: DiscussionResolvedIds) -> Seq<
    Seq<char>,
> {
    seq![
        "-f"@,
        "query="@ + CREATE_DISCUSSION_MUTATION@,
        "-F"@,
        "repo_id="@ + ids.repository_id@,
        "-F"@,
        "category_id="@ + ids.category_id@,
        "-F"@,
        "title="@ + input.title@,
        "-F"@,
        "body="@ + input.body@,
    ]
}

/// A mutation that takes one id.
pub open spec fn mutation_args(mutation: Seq<char>, key: Seq<char>, id: Seq<char>) -> Seq<Seq<char>> {
    seq!["-f"@, "query="@ + mutation, "-F"@, key + "="@ + id]
}

fn mutation_args_vec(mutation: &str, key: &str, id: &str) -> (args: Vec<String>)
    ensures
        texts(args@) == mutation_args(mutation@, key@, id@),
{
    let mut args = no_args();
    push_str_arg(&mut args, "-f");
    push_arg(&mut args, concat("query=", mutation));
    push_str_arg(&mut args, "-F");
    let head = concat(key, "=");
    push_arg(&mut args, concat(head.as_str(), id));
    assert(texts(args@) =~= mutation_args(mutation@, key@, id@));
    args
}

pub struct DiscussionsService<R: Runner> {
    registry: CommandRegistry,
    executor: CommandExecutor<R>,
    policy_guard: PolicyGuard,
}

impl<R: Runner> DiscussionsService<R> {
    /// The commands this service may run.
    pub closed spec fn commands(&self) -> Seq<CommandSpecView> {
        self.registry@
    }

    /// Whether destructive commands are skipped.
    pub closed spec fn safe_mode(&self) -> bool {
        self.executor.safe_mode()
    }

    /// The executor that runs the commands.
    pub closed spec fn execution(&self) -> CommandExecutor<R> {
        self.executor
    }

    pub fn new(registry: CommandRegistry, executor: CommandExecutor<R>) -> (s: Self)
        ensures
            s.commands() == registry@,
            s.safe_mode() == executor.safe_mode(),
            s.execution() == executor,
    {
        DiscussionsService { registry, executor, policy_guard: PolicyGuard }
    }

    /// Lists the discussion categories of a repository; the result is the
    /// GraphQL response.
    pub fn list_categories(&self, owner: &str, repo: &str, limit: u16, trace: &TraceContext) -> (r:
        Result<String, AppError>)
        ensures
            checked_payload(
                first_failure(owner_repo_check(owner@, repo@), limit_check(limit)),
                self.execution(),
                self.commands(),
                "discussions.categories.list"@,
                query_args(LIST_CATEGORIES_QUERY@, owner@, repo@, decimal(limit as nat)),
                r,
            ),
    {
        require_owner_repo(owner, repo)?;
        require_limit(limit)?;
        let count = decimal_string(limit as u64);
        let args = query_args_vec(LIST_CATEGORIES_QUERY, owner, repo, count.as_str());
        run_payload(&self.registry, &self.executor, "discussions.categories.list", &args, trace)
    }

    /// Lists the discussions of a repository, most recently updated first; the
    /// result is the GraphQL response.
    pub fn list(&self, owner: &str, repo: &str, limit: u16, trace: &TraceContext) -> (r: Result<
        String,
        AppError,
    >)
        ensures
            checked_payload(
                first_failure(owner_repo_check(owner@, repo@), limit_check(limit)),
                self.execution(),
                self.commands(),
                "discussions.list"@,
                query_args(LIST_DISCUSSIONS_QUERY@, owner@, repo@, decimal(limit as nat)),
                r,
            ),
    {
        require_owner_repo(owner, repo)?;
        require_limit(limit)?;
        let count = decimal_string(limit as u64);
        let args = query_args_vec(LIST_DISCUSSIONS_QUERY, owner, repo, count.as_str());
        run_payload(&self.registry, &self.executor, "discussions.list", &args, trace)
    }

    /// The first step of creating a discussion: reads the repository's id and
    /// its categories (up to 100). The result is the GraphQL response, from
    /// which `resolve_category_ids` picks the ids that `create` takes.
    pub fn resolve_ids(
        &self,
        permission: RepoPermission,
        input: &CreateDiscussionInput,
        trace: &TraceContext,
    ) -> (r: Result<String, AppError>)
        ensures
            guarded_payload(
                RepoPermission::Write,
                permission,
                "discussions.create"@,
                input.invalid(),
                self.execution(),
                self.commands(),
                query_args(RESOLVE_IDS_QUERY@, input.owner@, input.repo@, "100"@),
                r,
            ),
    {
        self.policy_guard.require(RepoPermission::Write, permission, "discussions.create")?;
        input.validate()?;
        let args = query_args_vec(RESOLVE_IDS_QUERY, input.owner.as_str(), input.repo.as_str(), "100");
        run_payload(&self.registry, &self.executor, "discussions.create", &args, trace)
    }

    /// Creates the discussion in the repository and category that `ids` name;
    /// the result is the GraphQL response, which holds its number and URL.
    pub fn create(
        &self,
        permission: RepoPermission,
        input: &CreateDiscussionInput,
        ids: &DiscussionResolvedIds,
        trace: &TraceContext,
    ) -> (r: Result<String, AppError>)
        ensures
            guarded_payload(
                RepoPermission::Write,
                permission,
                "discussions.create"@,
                input.invalid(),
                self.execution(),
                self.commands(),
                creation_args(*input, *ids),
                r,
            ),
    {
        self.policy_guard.require(RepoPermission::Write, permission, "discussions.create")?;
        input.validate()?;
        let mut args = no_args();
        push_str_arg(&mut args, "-f");
        push_arg(&mut args, concat("query=", CREATE_DISCUSSION_MUTATION));
        push_str_arg(&mut args, "-F");
        push_arg(&mut args, concat("repo_id=", ids.repository_id.as_str()));
        push_str_arg(&mut args, "-F");
        push_arg(&mut args, concat("category_id=", ids.category_id.as_str()));
        push_str_arg(&mut args, "-F");
        push_arg(&mut args, concat("title=", input.title.as_str()));
        push_str_arg(&mut args, "-F");
        push_arg(&mut args, concat("body=", input.body.as_str()));
        assert(texts(args@) =~= creation_args(*input, *ids));
        run_payload(&self.registry, &self.executor, "discussions.create", &args, trace)
    }

    pub fn close(&self, permission: RepoPermission, input: &CloseDiscussionInput, trace: &TraceContext) -> (r:
        Result<(), AppError>)
        ensures
            guarded_unit(
                RepoPermission::Write,
                permission,
                "discussions.close"@,
                input.invalid(),
                self.execution(),
                self.commands(),
                mutation_args(CLOSE_DISCUSSION_MUTATION@, "discussion_id"@, input.discussion_id@),
                r,
            ),
    {
        self.policy_guard.require(RepoPermission::Write, permission, "discussions.close")?;
        input.validate()?;
        let args = mutation_args_vec(
            CLOSE_DISCUSSION_MUTATION,
            "discussion_id",
            input.discussion_id.as_str(),
        );
        run_unit(&self.registry, &self.executor, "discussions.close", &args, trace)
    }

    pub fn mark_answer(&self, permission: RepoPermission, input: &MarkAnswerInput, trace: &TraceContext) -> (r:
        Result<(), AppError>)
        ensures
            guarded_unit(
                RepoPermission::Write,
                permission,
                "discussions.answer"@,
                input.invalid(),
                self.execution(),
                self.commands(),
                mutation_args(MARK_ANSWER_MUTATION@, "comment_id"@, input.comment_id@),
                r,
            ),
    {
        self.policy_guard.require(RepoPermission::Write, permission, "discussions.answer")?;
        input.validate()?;
        let args = mutation_args_vec(MARK_ANSWER_MUTATION, "comment_id", input.comment_id.as_str());
        run_unit(&self.registry, &self.executor, "discussions.answer", &args, trace)
    }
}

} // verus!
