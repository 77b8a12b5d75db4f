//! Repository operations: listing repositories, branches and commits, creating,
//! editing and deleting repositories, creating and deleting branches.
use vstd::prelude::*;
use crate::engine::command_registry::{CommandRegistry, CommandSpecView, texts};
use crate::engine::error::{AppError, ErrorCode, ErrorView, upstream_view, validation_view};
use crate::engine::executor::{CommandExecutor, Runner};
use crate::engine::invocation::{
    check_result, checked_payload, command_output, run_command, limit_check, entries_check, first_failure, flagged, guarded_unit,
    no_args, nonzero_check, optional_check, optional_pair, owner_repo_check, payload_result, prefixed, push_arg,
    push_flagged, push_str_arg, require_entries, require_nonzero, require_optional_text,
    require_owner_repo, require_text, required_check, run_payload, run_unit, slash, slash_join,
    unit_result,
};
use crate::engine::observability::TraceContext;
use crate::engine::policy_guard::{PolicyGuard, RepoPermission, guard_outcome};
use crate::json::{JsonValue, as_text, field, field_of, get, get_of, json_text_reading, parse_json_text, text_of};
use crate::text::{blank, concat, owned, concat3, decimal, decimal_string, is_blank, str_has_char};

verus! {

broadcast use vstd::string::group_string_axioms;

#[derive(Debug, Clone, PartialEq, Eq)]
pub struct CreateRepositoryInput {
    pub owner: String,
    pub name: String,
    pub private: bool,
    pub description: Option<String>,
}

impl CreateRepositoryInput {
    pub open spec fn invalid(&self) -> Option<ErrorView> {
        if is_blank(self.owner@) {
            Some(validation_view("owner is required"@))
        } else if is_blank(self.name@) {
            Some(validation_view("name is required"@))
        } else if self.name@.contains(' ') {
            Some(validation_view("repository name must not contain spaces"@))
        } else {
            None
        }
    }

    pub fn validate(&self) -> (r: Result<(), AppError>)
        ensures
            check_result(self.invalid(), r),
    {
        if blank(self.owner.as_str()) {
            return Err(AppError::validation("owner is required"));
        }
        if blank(self.name.as_str()) {
            return Err(AppError::validation("name is required"));
        }
        if str_has_char(self.name.as_str(), ' ') {
            return Err(AppError::validation("repository name must not contain spaces"));
        }
        Ok(())
    }
}

#[derive(Debug, Clone, Copy, PartialEq, Eq, Structural)]
pub enum RepositoryVisibility {
    Public,
    Private,
    Internal,
}

pub open spec fn visibility_flag(v: RepositoryVisibility) -> Seq<char> {
    match v {
        RepositoryVisibility::Public => "public"@,
        RepositoryVisibility::Private => "private"@,
        RepositoryVisibility::Internal => "internal"@,
    }
}

impl RepositoryVisibility {
    fn as_flag_value(self) -> (s: &'static str)
        ensures
            s@ == visibility_flag(self),
    {
        match self {
            RepositoryVisibility::Public => "public",
            RepositoryVisibility::Private => "private",
            RepositoryVisibility::Internal => "internal",
        }
    }
}

#[derive(Debug, Clone, PartialEq, Eq)]
pub struct EditRepositoryInput {
    pub owner: String,
    pub repo: String,
    pub description: Option<String>,
    pub homepage: Option<String>,
    pub default_branch: Option<String>,
    pub visibility: Option<RepositoryVisibility>,
    pub add_topics: Vec<String>,
    pub remove_topics: Vec<String>,
    pub replace_topics: Option<Vec<String>>,
}

/// The check that the replacement topics, when given, hold no blank topic.
pub open spec fn replace_topics_check(topics: Option<Vec<String>>) -> Option<ErrorView> {
    match topics {
        Some(t) => entries_check(t@, "replace_topics must not contain empty values"@),
        None => None,
    }
}

impl EditRepositoryInput {
    /// Some field to change is given.
    pub open spec fn has_changes(&self) -> bool {
        ||| self.description is Some
        ||| self.homepage is Some
        ||| self.default_branch is Some
        ||| self.visibility is Some
        ||| self.add_topics@.len() > 0
        ||| self.remove_topics@.len() > 0
        ||| self.replace_topics is Some
    }

    pub open spec fn invalid(&self) -> Option<ErrorView> {
        first_failure(
            owner_repo_check(self.owner@, self.repo@),
            first_failure(
                optional_check(self.description, "description must not be empty when provided"@),
                first_failure(
                    optional_check(self.homepage, "homepage must not be empty when provided"@),
                    first_failure(
                        optional_check(
                            self.default_branch,
                            "default branch must not be empty when provided"@,
                        ),
                        first_failure(
                            entries_check(
                                self.add_topics@,
                                "add_topics must not contain empty values"@,
                            ),
                            first_failure(
                                entries_check(
                                    self.remove_topics@,
                                    "remove_topics must not contain empty values"@,
                                ),
                                first_failure(
                                    replace_topics_check(self.replace_topics),
                                    if self.has_changes() {
                                        None
                                    } else {
                                        Some(
                                            validation_view(
                                                "at least one editable field must be provided"@,
                                            ),
                                        )
                                    },
                                ),
                            ),
                        ),
                    ),
                ),
            ),
        )
    }

    pub fn validate(&self) -> (r: Result<(), AppError>)
        ensures
            check_result(self.invalid(), r),
    {
        require_owner_repo(self.owner.as_str(), self.repo.as_str())?;
        require_optional_text(&self.description, "description must not be empty when provided")?;
        require_optional_text(&self.homepage, "homepage must not be empty when provided")?;
        require_optional_text(
            &self.default_branch,
            "default branch must not be empty when provided",
        )?;
        require_entries(&self.add_topics, "add_topics must not contain empty values")?;
        require_entries(&self.remove_topics, "remove_topics must not contain empty values")?;
        match &self.replace_topics {
            Some(topics) => require_entries(
                topics,
                "replace_topics must not contain empty values",
            )?,
            None => {},
        }
        let has_changes = self.description.is_some() || self.homepage.is_some()
            || self.default_branch.is_some() || self.visibility.is_some()
            || self.add_topics.len() > 0 || self.remove_topics.len() > 0
            || self.replace_topics.is_some();
        if !has_changes {
            return Err(AppError::validation("at least one editable field must be provided"));
        }
        Ok(())
    }
}

#[derive(Debug, Clone, PartialEq, Eq)]
pub struct CreateBranchInput {
    pub owner: String,
    pub repo: String,
    pub branch: String,
    pub from_branch: String,
}

impl CreateBranchInput {
    pub open spec fn invalid(&self) -> Option<ErrorView> {
        first_failure(
            owner_repo_check(self.owner@, self.repo@),
            if is_blank(self.branch@) || is_blank(self.from_branch@) {
                Some(validation_view("branch and from_branch are required"@))
            } else {
                None
            },
        )
    }

    pub fn validate(&self) -> (r: Result<(), AppError>)
        ensures
            check_result(self.invalid(), r),
    {
        require_owner_repo(self.owner.as_str(), self.repo.as_str())?;
        if blank(self.branch.as_str()) || blank(self.from_branch.as_str()) {
            return Err(AppError::validation("branch and from_branch are required"));
        }
        Ok(())
    }
}

#[derive(Debug, Clone, PartialEq, Eq)]
pub struct DeleteBranchInput {
    pub owner: String,
    pub repo: String,
    pub branch: String,
}

impl DeleteBranchInput {
    pub open spec fn invalid(&self) -> Option<ErrorView> {
        first_failure(
            owner_repo_check(self.owner@, self.repo@),
            required_check(self.branch@, "branch is required"@),
        )
    }

    pub fn validate(&self) -> (r: Result<(), AppError>)
        ensures
            check_result(self.invalid(), r),
    {
        require_owner_repo(self.owner.as_str(), self.repo.as_str())?;
        require_text(self.branch.as_str(), "branch is required")
    }
}

pub open spec fn list_args(owner: Seq<char>, limit: u16) -> Seq<Seq<char>> {
    seq![owner, "--limit"@, decimal(limit as nat)]
}

pub open spec fn create_args(input: CreateRepositoryInput) -> Seq<Seq<char>> {
    seq![slash(input.owner@, input.name@), "--confirm"@] + seq![
        if input.private {
            "--private"@
        } else {
            "--public"@
        },
    ] + match input.description {
        Some(d) => seq!["--description"@, d@],
        None => Seq::empty(),
    }
}

pub open spec fn edit_args(input: EditRepositoryInput) -> Seq<Seq<char>> {
    seq![slash(input.owner@, input.repo@)] + optional_pair("--description"@, input.description)
        + optional_pair("--homepage"@, input.homepage) + optional_pair(
        "--default-branch"@,
        input.default_branch,
    ) + match input.visibility {
        Some(v) => seq![
            "--visibility"@,
            visibility_flag(v),
            "--accept-visibility-change-consequences"@,
        ],
        None => Seq::empty(),
    } + flagged("--add-topic"@, texts(input.add_topics@)) + flagged(
        "--remove-topic"@,
        texts(input.remove_topics@),
    )
}

pub open spec fn topics_args(owner: Seq<char>, repo: Seq<char>, topics: Seq<String>) -> Seq<
    Seq<char>,
> {
    seq!["repos/"@ + owner + "/"@ + repo + "/topics"@] + flagged(
        "-f"@,
        prefixed("names[]="@, texts(topics)),
    )
}

pub open spec fn branches_args(owner: Seq<char>, repo: Seq<char>, limit: u16) -> Seq<Seq<char>> {
    seq!["repos/"@ + owner + "/"@ + repo + "/branches?per_page="@ + decimal(limit as nat)]
}

pub open spec fn commits_args(
    owner: Seq<char>,
    repo: Seq<char>,
    branch: Option<Seq<char>>,
    limit: u16,
) -> Seq<Seq<char>> {
    seq![
        "repos/"@ + owner + "/"@ + repo + "/commits?per_page="@ + decimal(limit as nat) + match branch {
            Some(b) => "&sha="@ + b,
            None => Seq::empty(),
        },
    ]
}

pub open spec fn ref_args(input: CreateBranchInput) -> Seq<Seq<char>> {
    seq!["repos/"@ + input.owner@ + "/"@ + input.repo@ + "/git/ref/heads/"@ + input.from_branch@]
}

pub open spec fn create_branch_args(input: CreateBranchInput, sha: Seq<char>) -> Seq<Seq<char>> {
    seq![
        "repos/"@ + input.owner@ + "/"@ + input.repo@ + "/git/refs"@,
        "-f"@,
        "ref=refs/heads/"@ + input.branch@,
        "-f"@,
        "sha="@ + sha,
    ]
}

/// The commit a reference points at: its `object.sha`, where that is a string.
pub open spec fn source_sha(v: JsonValue) -> Option<Seq<char>> {
    as_text(field_of(field(v, "object"@), "sha"@))
}

/// The commit a reference names, as `source_sha` says.
pub fn branch_sha_from_json(v: &JsonValue) -> (r: Option<String>)
    ensures
        match r {
            Some(sha) => source_sha(*v) == Some(sha@),
            None => source_sha(*v) is None,
        },
{
    match text_of(get_of(get(v, "object"), "sha")) {
        Some(sha) => Some(owned(sha)),
        None => None,
    }
}

/// What creating a branch does once the permission and the input are
/// accepted, given how reading the source reference ended: its error; an
/// upstream error when the output is not JSON or names no commit; otherwise
/// the creation of the branch at that commit.
pub open spec fn branch_steps<R: Runner>(
    ex: CommandExecutor<R>,
    registry: Seq<CommandSpecView>,
    input: CreateBranchInput,
    o: Result<(Seq<char>, Seq<char>), AppError>,
    r: Result<(), AppError>,
) -> bool {
    match o {
        Err(e) => r == Err::<(), AppError>(e),
        Ok(out) => match json_text_reading(out.0) {
            Err(m) => r matches Err(e) && e.is(
                upstream_view("failed to parse reference payload: "@ + m),
            ),
            Ok(v) => match source_sha(v) {
                None => r matches Err(e) && e.is(
                    upstream_view("reference payload did not contain object.sha"@),
                ),
                Some(sha) => unit_result(
                    ex,
                    registry,
                    "repo.branch.create"@,
                    create_branch_args(input, sha),
                    r,
                ),
            },
        },
    }
}

pub open spec fn delete_branch_args(input: DeleteBranchInput) -> Seq<Seq<char>> {
    seq!["repos/"@ + input.owner@ + "/"@ + input.repo@ + "/git/refs/heads/"@ + input.branch@]
}

pub open spec fn delete_args(owner: Seq<char>, repo: Seq<char>) -> Seq<Seq<char>> {
    seq![slash(owner, repo), "--yes"@]
}

/// What `edit` may end with once the permission and the input are accepted:
/// the `gh repo edit` call when it has flags to pass, then the topic
/// replacement when replacement topics are given, stopping at the first
/// failure.
pub open spec fn edit_steps<R: Runner>(
    ex: CommandExecutor<R>,
    registry: Seq<CommandSpecView>,
    input: EditRepositoryInput,
    r: Result<(), AppError>,
) -> bool {
    let a = edit_args(input);
    if a.len() > 1 {
        exists|r1: Result<(), AppError>|
            #[trigger] unit_result(ex, registry, "repo.edit"@, a, r1) && (r1 is Err
                ==> r == r1) && (r1 is Ok ==> topics_step(ex, registry, input, r))
    } else {
        topics_step(ex, registry, input, r)
    }
}

/// The topic replacement step of `edit`.
pub open spec fn topics_step<R: Runner>(
    ex: CommandExecutor<R>,
    registry: Seq<CommandSpecView>,
    input: EditRepositoryInput,
    r: Result<(), AppError>,
) -> bool {
    match input.replace_topics {
        Some(t) => unit_result(
            ex,
            registry,
            "repo.topics.replace"@,
            topics_args(input.owner@, input.repo@, t@),
            r,
        ),
        None => r is Ok,
    }
}

pub struct RepositoriesService<R: Runner> {
    registry: CommandRegistry,
    executor: CommandExecutor<R>,
    policy_guard: PolicyGuard,
}

impl<R: Runner> RepositoriesService<R> {
    /// The commands this service may run.
    pub closed spec fn commands(&self) -> Seq<CommandSpecView> {
        self.registry@
    }

    /// Whether destructive commands are skipped.
    pub closed spec fn safe_mode(&self) -> bool {
        self.executor.safe_mode()
    }

    /// The executor that runs the commands.
    pub closed spec fn execution(&self) -> CommandExecutor<R> {
        self.executor
    }

    pub fn new(registry: CommandRegistry, executor: CommandExecutor<R>) -> (s: Self)
        ensures
            s.commands() == registry@,
            s.safe_mode() == executor.safe_mode(),
            s.execution() == executor,
    {
        RepositoriesService { registry, executor, policy_guard: PolicyGuard }
    }

    /// Lists the repositories of `owner`; the result is the command's JSON output.
    pub fn list(&self, owner: &str, limit: u16, trace: &TraceContext) -> (r: Result<
        String,
        AppError,
    >)
        ensures
            checked_payload(
                first_failure(required_check(owner@, "owner is required"@), limit_check(limit)),
                self.execution(),
                self.commands(),
                "repo.list"@,
                list_args(owner@, limit),
                r,
            ),
    {
        require_text(owner, "owner is required")?;
        require_nonzero(limit as u64, "limit must be greater than 0")?;
        let mut args = no_args();
        push_str_arg(&mut args, owner);
        push_str_arg(&mut args, "--limit");
        push_arg(&mut args, decimal_string(limit as u64));
        assert(texts(args@) =~= list_args(owner@, limit));
        run_payload(&self.registry, &self.executor, "repo.list", &args, trace)
    }

    pub fn create(
        &self,
        permission: RepoPermission,
        input: &CreateRepositoryInput,
        trace: &TraceContext,
    ) -> (r: Result<(), AppError>)
        ensures
            guarded_unit(
                RepoPermission::Write,
                permission,
                "repo.create"@,
                first_failure(
                    input.invalid(),
                    optional_check(
                        input.description,
                        "description must not be empty when provided"@,
                    ),
                ),
                self.execution(),
                self.commands(),
                create_args(*input),
                r,
            ),
    {
        self.policy_guard.require(RepoPermission::Write, permission, "repo.create")?;
        input.validate()?;
        let mut args = no_args();
        push_arg(&mut args, slash_join(input.owner.as_str(), input.name.as_str()));
        push_str_arg(&mut args, "--confirm");
        if input.private {
            push_str_arg(&mut args, "--private");
        } else {
            push_str_arg(&mut args, "--public");
        }
        match &input.description {
            Some(description) => {
                require_text(description.as_str(), "description must not be empty when provided")?;
                push_str_arg(&mut args, "--description");
                push_str_arg(&mut args, description.as_str());
            },
            None => {},
        }
        assert(texts(args@) =~= create_args(*input));
        run_unit(&self.registry, &self.executor, "repo.create", &args, trace)
    }

    pub fn edit(
        &self,
        permission: RepoPermission,
        input: &EditRepositoryInput,
        trace: &TraceContext,
    ) -> (r: Result<(), AppError>)
        ensures
            match first_failure(
                guard_outcome(RepoPermission::Admin, permission, "repo.edit"@),
                input.invalid(),
            ) {
                Some(v) => r matches Err(e) && e.is(v),
                None => edit_steps(self.execution(), self.commands(), *input, r),
            },
    {
        self.policy_guard.require(RepoPermission::Admin, permission, "repo.edit")?;
        input.validate()?;
        let mut args = no_args();
        push_arg(&mut args, slash_join(input.owner.as_str(), input.repo.as_str()));
        let ghost g0 = seq![slash(input.owner@, input.repo@)];
        assert(texts(args@) =~= g0);
        match &input.description {
            Some(v) => {
                push_str_arg(&mut args, "--description");
                push_str_arg(&mut args, v.as_str());
            },
            None => {},
        }
        let ghost g1 = g0 + optional_pair("--description"@, input.description);
        assert(texts(args@) =~= g1);
        match &input.homepage {
            Some(v) => {
                push_str_arg(&mut args, "--homepage");
                push_str_arg(&mut args, v.as_str());
            },
            None => {},
        }
        let ghost g2 = g1 + optional_pair("--homepage"@, input.homepage);
        assert(texts(args@) =~= g2);
        match &input.default_branch {
            Some(v) => {
                push_str_arg(&mut args, "--default-branch");
                push_str_arg(&mut args, v.as_str());
            },
            None => {},
        }
        let ghost g3 = g2 + optional_pair("--default-branch"@, input.default_branch);
        assert(texts(args@) =~= g3);
        match input.visibility {
            Some(v) => {
                push_str_arg(&mut args, "--visibility");
                push_str_arg(&mut args, v.as_flag_value());
                push_str_arg(&mut args, "--accept-visibility-change-consequences");
            },
            None => {},
        }
        let ghost g4 = g3 + match input.visibility {
            Some(v) => seq![
                "--visibility"@,
                visibility_flag(v),
                "--accept-visibility-change-consequences"@,
            ],
            None => Seq::<Seq<char>>::empty(),
        };
        assert(texts(args@) =~= g4);
        proof {
            reveal_strlit("");
        }
        assert(prefixed(""@, texts(input.add_topics@)) =~= texts(
            input.add_topics@,
        ));
        assert(prefixed(""@, texts(input.remove_topics@)) =~= texts(
            input.remove_topics@,
        ));
        push_flagged(&mut args, "--add-topic", "", &input.add_topics);
        push_flagged(&mut args, "--remove-topic", "", &input.remove_topics);
        assert(texts(args@) =~= edit_args(*input));
        if args.len() > 1 {
            let r1 = run_unit(&self.registry, &self.executor, "repo.edit", &args, trace);
            assert(unit_result(self.execution(), self.commands(), "repo.edit"@, edit_args(*input), r1));
            match r1 {
                Err(e) => {
                    return Err(e);
                },
                Ok(()) => {},
            }
            let r2 = self.replace_topics_step(input, trace);
            assert(topics_step(self.execution(), self.commands(), *input, r2));
            return r2;
        }
        self.replace_topics_step(input, trace)
    }

    /// The topic replacement that `edit` ends with.
    fn replace_topics_step(&self, input: &EditRepositoryInput, trace: &TraceContext) -> (r: Result<
        (),
        AppError,
    >)
        ensures
            topics_step(self.execution(), self.commands(), *input, r),
    {
        match &input.replace_topics {
            Some(topics) => {
                let mut topic_args = no_args();
                let endpoint = concat3("repos/", input.owner.as_str(), "/");
                let endpoint = concat3(endpoint.as_str(), input.repo.as_str(), "/topics");
                push_arg(&mut topic_args, endpoint);
                push_flagged(&mut topic_args, "-f", "names[]=", topics);
                assert(texts(topic_args@) =~= topics_args(input.owner@, input.repo@, topics@));
                run_unit(&self.registry, &self.executor, "repo.topics.replace", &topic_args, trace)
            },
            None => Ok(()),
        }
    }

    /// Lists the branches of a repository; the result is the command's JSON output.
    pub fn list_branches(&self, owner: &str, repo: &str, limit: u16, trace: &TraceContext) -> (r:
        Result<String, AppError>)
        ensures
            checked_payload(
                first_failure(owner_repo_check(owner@, repo@), limit_check(limit)),
                self.execution(),
                self.commands(),
                "repo.branches.list"@,
                branches_args(owner@, repo@, limit),
                r,
            ),
    {
        require_owner_repo(owner, repo)?;
        require_nonzero(limit as u64, "limit must be greater than 0")?;
        let e1 = concat3("repos/", owner, "/");
        let e2 = concat3(e1.as_str(), repo, "/branches?per_page=");
        let limit_text = decimal_string(limit as u64);
        let mut args = no_args();
        push_arg(&mut args, concat(e2.as_str(), limit_text.as_str()));
        assert(texts(args@) =~= branches_args(owner@, repo@, limit));
        run_payload(&self.registry, &self.executor, "repo.branches.list", &args, trace)
    }

    /// Lists the commits of a repository, of one branch when `branch` is given;
    /// the result is the command's JSON output.
    pub fn list_commits(
        &self,
        owner: &str,
        repo: &str,
        branch: Option<&str>,
        limit: u16,
        trace: &TraceContext,
    ) -> (r: Result<String, AppError>)
        ensures
            checked_payload(
                first_failure(
                    owner_repo_check(owner@, repo@),
                    first_failure(
                        limit_check(limit),
                        match branch {
                            Some(b) => required_check(
                                b@,
                                "branch must not be empty when provided"@,
                            ),
                            None => None,
                        },
                    ),
                ),
                self.execution(),
                self.commands(),
                "repo.commits.list"@,
                commits_args(
                    owner@,
                    repo@,
                    match branch {
                        Some(b) => Some(b@),
                        None => None,
                    },
                    limit,
                ),
                r,
            ),
    {
        require_owner_repo(owner, repo)?;
        require_nonzero(limit as u64, "limit must be greater than 0")?;
        let e1 = concat3("repos/", owner, "/");
        let e2 = concat3(e1.as_str(), repo, "/commits?per_page=");
        let limit_text = decimal_string(limit as u64);
        let mut endpoint = concat(e2.as_str(), limit_text.as_str());
        let ghost base = endpoint@;
        match branch {
            Some(b) => {
                require_text(b, "branch must not be empty when provided")?;
                endpoint.append("&sha=");
                endpoint.append(b);
                assert(endpoint@ =~= base + ("&sha="@ + b@));
            },
            None => {
                assert(endpoint@ =~= base + Seq::<char>::empty());
            },
        }
        let mut args = no_args();
        push_arg(&mut args, endpoint);
        proof {
            let bopt = match branch {
                Some(b) => Some(b@),
                None => None,
            };
            assert(base =~= "repos/"@ + owner@ + "/"@ + repo@ + "/commits?per_page="@ + decimal(limit as nat));
            assert(texts(args@) =~= commits_args(owner@, repo@, bopt, limit));
        }
        run_payload(&self.registry, &self.executor, "repo.commits.list", &args, trace)
    }

    /// The first step of creating a branch: reads the reference of the branch
    /// it starts from. The result is the command's JSON output, whose
    /// `object.sha` `create_branch` takes.
    pub fn get_source_ref(
        &self,
        permission: RepoPermission,
        input: &CreateBranchInput,
        trace: &TraceContext,
    ) -> (r: Result<String, AppError>)
        ensures
            match first_failure(
                guard_outcome(RepoPermission::Write, permission, "repo.branch.create"@),
                input.invalid(),
            ) {
                Some(v) => r matches Err(e) && e.is(v),
                None => payload_result(
                    self.execution(),
                    self.commands(),
                    "repo.branch.ref.get"@,
                    ref_args(*input),
                    r,
                ),
            },
    {
        self.policy_guard.require(RepoPermission::Write, permission, "repo.branch.create")?;
        input.validate()?;
        let e1 = concat3("repos/", input.owner.as_str(), "/");
        let e2 = concat3(e1.as_str(), input.repo.as_str(), "/git/ref/heads/");
        let mut args = no_args();
        push_arg(&mut args, concat(e2.as_str(), input.from_branch.as_str()));
        assert(texts(args@) =~= ref_args(*input));
        run_payload(&self.registry, &self.executor, "repo.branch.ref.get", &args, trace)
    }

    /// Creates a branch from another: reads the source reference, then creates
    /// the branch at the commit it names.
    pub fn create_branch(
        &self,
        permission: RepoPermission,
        input: &CreateBranchInput,
        trace: &TraceContext,
    ) -> (r: Result<(), AppError>)
        ensures
            match first_failure(
                guard_outcome(RepoPermission::Write, permission, "repo.branch.create"@),
                input.invalid(),
            ) {
                Some(v) => r matches Err(e) && e.is(v),
                None => exists|o: Result<(Seq<char>, Seq<char>), AppError>|
                    #[trigger] command_output(
                        self.execution(),
                        self.commands(),
                        "repo.branch.ref.get"@,
                        ref_args(*input),
                        o,
                    ) && branch_steps(self.execution(), self.commands(), *input, o, r),
            },
    {
        self.policy_guard.require(RepoPermission::Write, permission, "repo.branch.create")?;
        input.validate()?;
        let r1 = concat3("repos/", input.owner.as_str(), "/");
        let r2 = concat3(r1.as_str(), input.repo.as_str(), "/git/ref/heads/");
        let mut ref_list = no_args();
        push_arg(&mut ref_list, concat(r2.as_str(), input.from_branch.as_str()));
        assert(texts(ref_list@) =~= ref_args(*input));
        let outcome = run_command(&self.registry, &self.executor, "repo.branch.ref.get", &ref_list, trace);
        let ghost o = crate::engine::executor::output_texts(outcome);
        assert(command_output(self.execution(), self.commands(), "repo.branch.ref.get"@, ref_args(*input), o));
        let output = match outcome {
            Ok(output) => output,
            Err(e) => return Err(e),
        };
        let value = match parse_json_text(output.stdout.as_str()) {
            Ok(v) => v,
            Err(m) => {
                let message = concat("failed to parse reference payload: ", m.as_str());
                return Err(AppError::new(ErrorCode::UpstreamError, message.as_str(), false));
            },
        };
        let sha = match branch_sha_from_json(&value) {
            Some(sha) => sha,
            None => {
                return Err(
                    AppError::new(
                        ErrorCode::UpstreamError,
                        "reference payload did not contain object.sha",
                        false,
                    ),
                );
            },
        };
        let e1 = concat3("repos/", input.owner.as_str(), "/");
        let mut args = no_args();
        push_arg(&mut args, concat3(e1.as_str(), input.repo.as_str(), "/git/refs"));
        push_str_arg(&mut args, "-f");
        push_arg(&mut args, concat("ref=refs/heads/", input.branch.as_str()));
        push_str_arg(&mut args, "-f");
        push_arg(&mut args, concat("sha=", sha.as_str()));
        assert(texts(args@) =~= create_branch_args(*input, sha@));
        run_unit(&self.registry, &self.executor, "repo.branch.create", &args, trace)
    }

    pub fn delete_branch(
        &self,
        permission: RepoPermission,
        input: &DeleteBranchInput,
        trace: &TraceContext,
    ) -> (r: Result<(), AppError>)
        ensures
            guarded_unit(
                RepoPermission::Write,
                permission,
                "repo.branch.delete"@,
                input.invalid(),
                self.execution(),
                self.commands(),
                delete_branch_args(*input),
                r,
            ),
    {
        self.policy_guard.require(RepoPermission::Write, permission, "repo.branch.delete")?;
        input.validate()?;
        let e1 = concat3("repos/", input.owner.as_str(), "/");
        let e2 = concat3(e1.as_str(), input.repo.as_str(), "/git/refs/heads/");
        let mut args = no_args();
        push_arg(&mut args, concat(e2.as_str(), input.branch.as_str()));
        assert(texts(args@) =~= delete_branch_args(*input));
        run_unit(&self.registry, &self.executor, "repo.branch.delete", &args, trace)
    }

    pub fn delete(&self, permission: RepoPermission, owner: &str, repo: &str, trace: &TraceContext) -> (r:
        Result<(), AppError>)
        ensures
            guarded_unit(
                RepoPermission::Admin,
                permission,
                "repo.delete"@,
                owner_repo_check(owner@, repo@),
                self.execution(),
                self.commands(),
                delete_args(owner@, repo@),
                r,
            ),
    {
        self.policy_guard.require(RepoPermission::Admin, permission, "repo.delete")?;
        require_owner_repo(owner, repo)?;
        let mut args = no_args();
        push_arg(&mut args, slash_join(owner, repo));
        push_str_arg(&mut args, "--yes");
        assert(texts(args@) =~= delete_args(owner@, repo@));
        run_unit(&self.registry, &self.executor, "repo.delete", &args, trace)
    }
}

} // verus!
