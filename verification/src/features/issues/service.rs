//! Issue operations: listing and viewing issues, creating, commenting on,
//! editing, closing and reopening them.
use vstd::prelude::*;
use crate::engine::command_registry::{CommandRegistry, CommandSpecView, texts};
use crate::engine::error::{AppError, ErrorView, validation_view};
use crate::engine::executor::{CommandExecutor, Runner};
use crate::engine::invocation::{
    check_result, checked_payload, entries_check, first_failure, guarded_unit, joined,
    join_texts, limit_check, no_args, nonzero_check, optional_check, optional_pair,
    owner_repo_check, parsed_result, push_arg, push_optional_pair, push_str_arg, require_entries,
    require_limit, require_nonzero, require_optional_text, require_owner_repo, require_text,
    required_check, run_payload, run_unit, slash, slash_join,
};
use crate::engine::observability::TraceContext;
use crate::engine::policy_guard::{PolicyGuard, RepoPermission, guard_outcome};
use crate::features::issues::dto::{IssueCreated, IssueDetail, issue_created_parse, issue_detail_parse, parse_issue_created_output, parse_issue_detail};
use crate::text::{concat, decimal, decimal_string};

verus! {

broadcast use vstd::string::group_string_axioms;

#[derive(Debug, Clone, PartialEq, Eq)]
pub struct CreateIssueInput {
    pub owner: String,
    pub repo: String,
    pub title: String,
    pub body: Option<String>,
}

impl CreateIssueInput {
    pub open spec fn invalid(&self) -> Option<ErrorView> {
        first_failure(
            owner_repo_check(self.owner@, self.repo@),
            first_failure(
                required_check(self.title@, "title is required"@),
                optional_check(self.body, "body must not be empty when provided"@),
            ),
        )
    }

    pub fn validate(&self) -> (r: Result<(), AppError>)
        ensures
            check_result(self.invalid(), r),
    {
        require_owner_repo(self.owner.as_str(), self.repo.as_str())?;
        require_text(self.title.as_str(), "title is required")?;
        require_optional_text(&self.body, "body must not be empty when provided")
    }
}

/// The check of an issue number.
pub open spec fn issue_number_check(number: u64) -> Option<ErrorView> {
    nonzero_check(number as int, "issue number must be greater than 0"@)
}

#[derive(Debug, Clone, PartialEq, Eq)]
pub struct CommentIssueInput {
    pub owner: String,
    pub repo: String,
    pub number: u64,
    pub body: String,
}

impl CommentIssueInput {
    pub open spec fn invalid(&self) -> Option<ErrorView> {
        first_failure(
            owner_repo_check(self.owner@, self.repo@),
            first_failure(
                issue_number_check(self.number),
                required_check(self.body@, "comment body is required"@),
            ),
        )
    }

    pub fn validate(&self) -> (r: Result<(), AppError>)
        ensures
            check_result(self.invalid(), r),
    {
        require_owner_repo(self.owner.as_str(), self.repo.as_str())?;
        require_nonzero(self.number, "issue number must be greater than 0")?;
        require_text(self.body.as_str(), "comment body is required")
    }
}

#[derive(Debug, Clone, PartialEq, Eq)]
pub struct EditIssueInput {
    pub owner: String,
    pub repo: String,
    pub number: u64,
    pub title: Option<String>,
    pub body: Option<String>,
    pub add_assignees: Vec<String>,
    pub remove_assignees: Vec<String>,
    pub add_labels: Vec<String>,
    pub remove_labels: Vec<String>,
}

impl EditIssueInput {
    /// Nothing to change is given.
    pub open spec fn is_empty_update(&self) -> bool {
        &&& self.title is None
        &&& self.body is None
        &&& self.add_assignees@.len() == 0
        &&& self.remove_assignees@.len() == 0
        &&& self.add_labels@.len() == 0
        &&& self.remove_labels@.len() == 0
    }

    pub open spec fn invalid(&self) -> Option<ErrorView> {
        first_failure(
            owner_repo_check(self.owner@, self.repo@),
            first_failure(
                issue_number_check(self.number),
                first_failure(
                    if self.is_empty_update() {
                        Some(validation_view("at least one update field must be provided"@))
                    } else {
                        None
                    },
                    first_failure(
                        optional_check(self.title, "title must not be empty when provided"@),
                        first_failure(
                            optional_check(self.body, "body must not be empty when provided"@),
                            first_failure(
                                entries_check(
                                    self.add_assignees@,
                                    "add_assignees must not contain empty values"@,
                                ),
                                first_failure(
                                    entries_check(
                                        self.remove_assignees@,
                                        "remove_assignees must not contain empty values"@,
                                    ),
                                    first_failure(
                                        entries_check(
                                            self.add_labels@,
                                            "add_labels must not contain empty values"@,
                                        ),
                                        entries_check(
                                            self.remove_labels@,
                                            "remove_labels must not contain empty values"@,
                                        ),
                                    ),
                                ),
                            ),
                        ),
                    ),
                ),
            ),
        )
    }

    pub fn validate(&self) -> (r: Result<(), AppError>)
        ensures
            check_result(self.invalid(), r),
    {
        require_owner_repo(self.owner.as_str(), self.repo.as_str())?;
        require_nonzero(self.number, "issue number must be greater than 0")?;
        if self.title.is_none() && self.body.is_none() && self.add_assignees.len() == 0
            && self.remove_assignees.len() == 0 && self.add_labels.len() == 0
            && self.remove_labels.len() == 0 {
            return Err(AppError::validation("at least one update field must be provided"));
        }
        require_optional_text(&self.title, "title must not be empty when provided")?;
        require_optional_text(&self.body, "body must not be empty when provided")?;
        require_entries(&self.add_assignees, "add_assignees must not contain empty values")?;
        require_entries(&self.remove_assignees, "remove_assignees must not contain empty values")?;
        require_entries(&self.add_labels, "add_labels must not contain empty values")?;
        require_entries(&self.remove_labels, "remove_labels must not contain empty values")
    }
}

#[derive(Debug, Clone, Copy, PartialEq, Eq, Structural)]
pub enum CloseReason {
    Completed,
    NotPlanned,
}

pub open spec fn close_reason_value(r: CloseReason) -> Seq<char> {
    match r {
        CloseReason::Completed => "completed"@,
        CloseReason::NotPlanned => "not planned"@,
    }
}

impl CloseReason {
    fn as_flag_value(self) -> (s: &'static str)
        ensures
            s@ == close_reason_value(self),
    {
        match self {
            CloseReason::Completed => "completed",
            CloseReason::NotPlanned => "not planned",
        }
    }
}

#[derive(Debug, Clone, PartialEq, Eq)]
pub struct CloseIssueInput {
    pub owner: String,
    pub repo: String,
    pub number: u64,
    pub comment: Option<String>,
    pub reason: Option<CloseReason>,
}

impl CloseIssueInput {
    pub open spec fn invalid(&self) -> Option<ErrorView> {
        first_failure(
            owner_repo_check(self.owner@, self.repo@),
            first_failure(
                issue_number_check(self.number),
                optional_check(self.comment, "comment must not be empty when provided"@),
            ),
        )
    }

    pub fn validate(&self) -> (r: Result<(), AppError>)
        ensures
            check_result(self.invalid(), r),
    {
        require_owner_repo(self.owner.as_str(), self.repo.as_str())?;
        require_nonzero(self.number, "issue number must be greater than 0")?;
        require_optional_text(&self.comment, "comment must not be empty when provided")
    }
}

#[derive(Debug, Clone, PartialEq, Eq)]
pub struct ReopenIssueInput {
    pub owner: String,
    pub repo: String,
    pub number: u64,
    pub comment: Option<String>,
}

impl ReopenIssueInput {
    pub open spec fn invalid(&self) -> Option<ErrorView> {
        first_failure(
            owner_repo_check(self.owner@, self.repo@),
            first_failure(
                issue_number_check(self.number),
                optional_check(self.comment, "comment must not be empty when provided"@),
            ),
        )
    }

    pub fn validate(&self) -> (r: Result<(), AppError>)
        ensures
            check_result(self.invalid(), r),
    {
        require_owner_repo(self.owner.as_str(), self.repo.as_str())?;
        require_nonzero(self.number, "issue number must be greater than 0")?;
        require_optional_text(&self.comment, "comment must not be empty when provided")
    }
}

/// `[number, "--repo", "owner/repo"]`, how the issue commands name an issue.
pub open spec fn issue_ref(number: u64, owner: Seq<char>, repo: Seq<char>) -> Seq<Seq<char>> {
    seq![decimal(number as nat), "--repo"@, slash(owner, repo)]
}

fn push_issue_ref(args: &mut Vec<String>, number: u64, owner: &str, repo: &str)
    ensures
        texts(final(args)@) == texts(old(args)@) + issue_ref(number, owner@, repo@),
{
    let ghost start = texts(args@);
    push_arg(args, decimal_string(number));
    push_str_arg(args, "--repo");
    push_arg(args, slash_join(owner, repo));
    assert(texts(args@) =~= start + issue_ref(number, owner@, repo@));
}

pub open spec fn list_args(owner: Seq<char>, repo: Seq<char>, limit: u16) -> Seq<Seq<char>> {
    seq!["--repo"@, slash(owner, repo), "--limit"@, decimal(limit as nat), "--state"@, "all"@]
}

pub open spec fn view_args(owner: Seq<char>, repo: Seq<char>, number: u64) -> Seq<Seq<char>> {
    issue_ref(number, owner, repo) + seq![
        "--json"@,
        "number,title,state,url,author,labels,assignees,updatedAt,body,comments"@,
    ]
}

pub open spec fn create_args(input: CreateIssueInput) -> Seq<Seq<char>> {
    seq!["--repo"@, slash(input.owner@, input.repo@), "--title"@, input.title@] + optional_pair(
        "--body"@,
        input.body,
    )
}

pub open spec fn comment_args(input: CommentIssueInput) -> Seq<Seq<char>> {
    issue_ref(input.number, input.owner@, input.repo@) + seq!["--body"@, input.body@]
}

pub open spec fn reason_args(reason: Option<CloseReason>) -> Seq<Seq<char>> {
    match reason {
        Some(r) => seq!["--reason"@, close_reason_value(r)],
        None => Seq::empty(),
    }
}

pub open spec fn close_args(input: CloseIssueInput) -> Seq<Seq<char>> {
    issue_ref(input.number, input.owner@, input.repo@) + optional_pair("--comment"@, input.comment)
        + reason_args(input.reason)
}

/// `[flag, "a,b,..."]` when the list is not empty.
pub open spec fn list_flag(flag: Seq<char>, values: Seq<String>) -> Seq<Seq<char>> {
    if values.len() == 0 {
        Seq::empty()
    } else {
        seq![flag, joined(texts(values), ","@)]
    }
}

fn push_list_flag(args: &mut Vec<String>, flag: &str, values: &Vec<String>)
    ensures
        texts(final(args)@) == texts(old(args)@) + list_flag(flag@, values@),
{
    let ghost start = texts(args@);
    if values.len() > 0 {
        push_str_arg(args, flag);
        push_arg(args, join_texts(values, ","));
    }
    assert(texts(args@) =~= start + list_flag(flag@, values@));
}

pub open spec fn edit_args(input: EditIssueInput) -> Seq<Seq<char>> {
    issue_ref(input.number, input.owner@, input.repo@) + optional_pair("--title"@, input.title)
        + optional_pair("--body"@, input.body) + list_flag("--add-assignee"@, input.add_assignees@)
        + list_flag("--remove-assignee"@, input.remove_assignees@) + list_flag(
        "--add-label"@,
        input.add_labels@,
    ) + list_flag("--remove-label"@, input.remove_labels@)
}

pub open spec fn reopen_args(input: ReopenIssueInput) -> Seq<Seq<char>> {
    issue_ref(input.number, input.owner@, input.repo@) + optional_pair("--comment"@, input.comment)
}

pub struct IssuesService<R: Runner> {
    registry: CommandRegistry,
    executor: CommandExecutor<R>,
    policy_guard: PolicyGuard,
}

impl<R: Runner> IssuesService<R> {
    /// The commands this service may run.
    pub closed spec fn commands(&self) -> Seq<CommandSpecView> {
        self.registry@
    }

    /// Whether destructive commands are skipped.
    pub closed spec fn safe_mode(&self) -> bool {
        self.executor.safe_mode()
    }

    /// The executor that runs the commands.
    pub closed spec fn execution(&self) -> CommandExecutor<R> {
        self.executor
    }

    pub fn new(registry: CommandRegistry, executor: CommandExecutor<R>) -> (s: Self)
        ensures
            s.commands() == registry@,
            s.safe_mode() == executor.safe_mode(),
            s.execution() == executor,
    {
        IssuesService { registry, executor, policy_guard: PolicyGuard }
    }

    /// Lists the issues of a repository, open and closed; the result is the
    /// command's JSON output.
    pub fn list(&self, owner: &str, repo: &str, limit: u16, trace: &TraceContext) -> (r: Result<
        String,
        AppError,
    >)
        ensures
            checked_payload(
                first_failure(owner_repo_check(owner@, repo@), limit_check(limit)),
                self.execution(),
                self.commands(),
                "issue.list"@,
                list_args(owner@, repo@, limit),
                r,
            ),
    {
        require_owner_repo(owner, repo)?;
        require_limit(limit)?;
        let mut args = no_args();
        push_str_arg(&mut args, "--repo");
        push_arg(&mut args, slash_join(owner, repo));
        push_str_arg(&mut args, "--limit");
        push_arg(&mut args, decimal_string(limit as u64));
        push_str_arg(&mut args, "--state");
        push_str_arg(&mut args, "all");
        assert(texts(args@) =~= list_args(owner@, repo@, limit));
        run_payload(&self.registry, &self.executor, "issue.list", &args, trace)
    }

    /// Reads one issue with its comments.
    pub fn view(&self, owner: &str, repo: &str, number: u64, trace: &TraceContext) -> (r: Result<
        IssueDetail,
        AppError,
    >)
        ensures
            match first_failure(owner_repo_check(owner@, repo@), issue_number_check(number)) {
                Some(v) => r matches Err(e) && e.is(v),
                None => parsed_result(
                    self.execution(),
                    self.commands(),
                    "issue.view"@,
                    view_args(owner@, repo@, number),
                    r,
                    issue_detail_parse(),
                ),
            },
    {
        require_owner_repo(owner, repo)?;
        require_nonzero(number, "issue number must be greater than 0")?;
        let mut args = no_args();
        push_issue_ref(&mut args, number, owner, repo);
        push_str_arg(&mut args, "--json");
        push_str_arg(&mut args, "number,title,state,url,author,labels,assignees,updatedAt,body,comments");
        assert(texts(args@) =~= view_args(owner@, repo@, number));
        let output = run_payload(&self.registry, &self.executor, "issue.view", &args, trace)?;
        let r = parse_issue_detail(output.as_str());
        assert(issue_detail_parse()(output@, r));
        r
    }

    /// Opens an issue and reads the URL that the command prints.
    pub fn create(
        &self,
        permission: RepoPermission,
        input: &CreateIssueInput,
        trace: &TraceContext,
    ) -> (r: Result<IssueCreated, AppError>)
        ensures
            match first_failure(
                guard_outcome(RepoPermission::Write, permission, "issue.create"@),
                input.invalid(),
            ) {
                Some(v) => r matches Err(e) && e.is(v),
                None => parsed_result(
                    self.execution(),
                    self.commands(),
                    "issue.create"@,
                    create_args(*input),
                    r,
                    issue_created_parse(),
                ),
            },
    {
        self.policy_guard.require(RepoPermission::Write, permission, "issue.create")?;
        input.validate()?;
        let mut args = no_args();
        push_str_arg(&mut args, "--repo");
        push_arg(&mut args, slash_join(input.owner.as_str(), input.repo.as_str()));
        push_str_arg(&mut args, "--title");
        push_str_arg(&mut args, input.title.as_str());
        push_optional_pair(&mut args, "--body", &input.body);
        assert(texts(args@) =~= create_args(*input));
        let output = run_payload(&self.registry, &self.executor, "issue.create", &args, trace)?;
        let r = parse_issue_created_output(output.as_str());
        assert(issue_created_parse()(output@, r));
        r
    }

    pub fn comment(
        &self,
        permission: RepoPermission,
        input: &CommentIssueInput,
        trace: &TraceContext,
    ) -> (r: Result<(), AppError>)
        ensures
            guarded_unit(
                RepoPermission::Write,
                permission,
                "issue.comment"@,
                input.invalid(),
                self.execution(),
                self.commands(),
                comment_args(*input),
                r,
            ),
    {
        self.policy_guard.require(RepoPermission::Write, permission, "issue.comment")?;
        input.validate()?;
        let mut args = no_args();
        push_issue_ref(&mut args, input.number, input.owner.as_str(), input.repo.as_str());
        push_str_arg(&mut args, "--body");
        push_str_arg(&mut args, input.body.as_str());
        assert(texts(args@) =~= comment_args(*input));
        run_unit(&self.registry, &self.executor, "issue.comment", &args, trace)
    }

    pub fn close(
        &self,
        permission: RepoPermission,
        input: &CloseIssueInput,
        trace: &TraceContext,
    ) -> (r: Result<(), AppError>)
        ensures
            guarded_unit(
                RepoPermission::Write,
                permission,
                "issue.close"@,
                input.invalid(),
                self.execution(),
                self.commands(),
                close_args(*input),
                r,
            ),
    {
        self.policy_guard.require(RepoPermission::Write, permission, "issue.close")?;
        input.validate()?;
        let mut args = no_args();
        push_issue_ref(&mut args, input.number, input.owner.as_str(), input.repo.as_str());
        push_optional_pair(&mut args, "--comment", &input.comment);
        let ghost head = texts(args@);
        match input.reason {
            Some(reason) => {
                push_str_arg(&mut args, "--reason");
                push_str_arg(&mut args, reason.as_flag_value());
            },
            None => {},
        }
        assert(texts(args@) =~= head + reason_args(input.reason));
        assert(texts(args@) =~= close_args(*input));
        run_unit(&self.registry, &self.executor, "issue.close", &args, trace)
    }

    pub fn edit(
        &self,
        permission: RepoPermission,
        input: &EditIssueInput,
        trace: &TraceContext,
    ) -> (r: Result<(), AppError>)
        ensures
            guarded_unit(
                RepoPermission::Write,
                permission,
                "issue.edit"@,
                input.invalid(),
                self.execution(),
                self.commands(),
                edit_args(*input),
                r,
            ),
    {
        self.policy_guard.require(RepoPermission::Write, permission, "issue.edit")?;
        input.validate()?;
        let mut args = no_args();
        push_issue_ref(&mut args, input.number, input.owner.as_str(), input.repo.as_str());
        push_optional_pair(&mut args, "--title", &input.title);
        push_optional_pair(&mut args, "--body", &input.body);
        push_list_flag(&mut args, "--add-assignee", &input.add_assignees);
        push_list_flag(&mut args, "--remove-assignee", &input.remove_assignees);
        push_list_flag(&mut args, "--add-label", &input.add_labels);
        push_list_flag(&mut args, "--remove-label", &input.remove_labels);
        assert(texts(args@) =~= edit_args(*input));
        run_unit(&self.registry, &self.executor, "issue.edit", &args, trace)
    }

    pub fn reopen(
        &self,
        permission: RepoPermission,
        input: &ReopenIssueInput,
        trace: &TraceContext,
    ) -> (r: Result<(), AppError>)
        ensures
            guarded_unit(
                RepoPermission::Write,
                permission,
                "issue.reopen"@,
                input.invalid(),
                self.execution(),
                self.commands(),
                reopen_args(*input),
                r,
            ),
    {
        self.policy_guard.require(RepoPermission::Write, permission, "issue.reopen")?;
        input.validate()?;
        let mut args = no_args();
        push_issue_ref(&mut args, input.number, input.owner.as_str(), input.repo.as_str());
        push_optional_pair(&mut args, "--comment", &input.comment);
        assert(texts(args@) =~= reopen_args(*input));
        run_unit(&self.registry, &self.executor, "issue.reopen", &args, trace)
    }
}

} // verus!
