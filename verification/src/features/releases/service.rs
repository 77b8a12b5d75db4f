//! Releases: listing, creating, editing and deleting releases, uploading and
//! deleting their assets.
use vstd::prelude::*;
use crate::engine::command_registry::{CommandRegistry, CommandSpecView, texts};
use crate::engine::error::{AppError, ErrorView, validation_view};
use crate::engine::executor::{CommandExecutor, Runner};
use crate::engine::invocation::{
    check_result, checked_payload, first_failure, guarded_unit, limit_check, no_args,
    optional_check, optional_pair, owner_repo_check, parsed_result, push_arg, push_optional_pair,
    push_str_arg, require_limit, require_optional_text, require_owner_repo, require_text,
    required_check, run_payload, run_unit, slash, slash_join,
};
use crate::engine::observability::TraceContext;
use crate::engine::policy_guard::{PolicyGuard, RepoPermission, guard_outcome};
use crate::features::releases::dto::{
    ReleaseCreated, parse_release_created_output, release_created_parse,
};
use crate::text::{bool_string, bool_text, concat, decimal, decimal_string};

verus! {

broadcast use vstd::string::group_string_axioms;

#[derive(Debug, Clone, PartialEq, Eq)]
pub struct CreateReleaseInput {
    pub owner: String,
    pub repo: String,
    pub tag: String,
    pub title: Option<String>,
    pub notes: Option<String>,
    pub draft: bool,
    pub prerelease: bool,
    pub target: Option<String>,
}

/// The checks that owner, repository and tag are given.
pub open spec fn release_check(owner: Seq<char>, repo: Seq<char>, tag: Seq<char>) -> Option<ErrorView> {
    first_failure(owner_repo_check(owner, repo), required_check(tag, "tag is required"@))
}

fn require_release(owner: &str, repo: &str, tag: &str) -> (r: Result<(), AppError>)
    ensures
        check_result(release_check(owner@, repo@, tag@), r),
{
    require_owner_repo(owner, repo)?;
    require_text(tag, "tag is required")
}

impl CreateReleaseInput {
    pub open spec fn invalid(&self) -> Option<ErrorView> {
        first_failure(
            release_check(self.owner@, self.repo@, self.tag@),
            first_failure(
                optional_check(self.title, "title must not be empty when provided"@),
                first_failure(
                    optional_check(self.notes, "notes must not be empty when provided"@),
                    optional_check(self.target, "target must not be empty when provided"@),
                ),
            ),
        )
    }

    pub fn validate(&self) -> (r: Result<(), AppError>)
        ensures
            check_result(self.invalid(), r),
    {
        require_release(self.owner.as_str(), self.repo.as_str(), self.tag.as_str())?;
        require_optional_text(&self.title, "title must not be empty when provided")?;
        require_optional_text(&self.notes, "notes must not be empty when provided")?;
        require_optional_text(&self.target, "target must not be empty when provided")
    }
}

#[derive(Debug, Clone, PartialEq, Eq)]
pub struct DeleteReleaseInput {
    pub owner: String,
    pub repo: String,
    pub tag: String,
    pub cleanup_tag: bool,
}

impl DeleteReleaseInput {
    pub open spec fn invalid(&self) -> Option<ErrorView> {
        release_check(self.owner@, self.repo@, self.tag@)
    }

    pub fn validate(&self) -> (r: Result<(), AppError>)
        ensures
            check_result(self.invalid(), r),
    {
        require_release(self.owner.as_str(), self.repo.as_str(), self.tag.as_str())
    }
}

#[derive(Debug, Clone, PartialEq, Eq)]
pub struct EditReleaseInput {
    pub owner: String,
    pub repo: String,
    pub tag: String,
    pub title: Option<String>,
    pub notes: Option<String>,
    pub draft: Option<bool>,
    pub prerelease: Option<bool>,
}

impl EditReleaseInput {
    pub open spec fn invalid(&self) -> Option<ErrorView> {
        first_failure(
            release_check(self.owner@, self.repo@, self.tag@),
            first_failure(
                if self.title is None && self.notes is None && self.draft is None
                    && self.prerelease is None {
                    Some(validation_view("at least one editable field must be provided"@))
                } else {
                    None
                },
                first_failure(
                    optional_check(self.title, "title must not be empty when provided"@),
                    optional_check(self.notes, "notes must not be empty when provided"@),
                ),
            ),
        )
    }

    pub fn validate(&self) -> (r: Result<(), AppError>)
        ensures
            check_result(self.invalid(), r),
    {
        require_release(self.owner.as_str(), self.repo.as_str(), self.tag.as_str())?;
        if self.title.is_none() && self.notes.is_none() && self.draft.is_none()
            && self.prerelease.is_none() {
            return Err(AppError::validation("at least one editable field must be provided"));
        }
        require_optional_text(&self.title, "title must not be empty when provided")?;
        require_optional_text(&self.notes, "notes must not be empty when provided")
    }
}

#[derive(Debug, Clone, PartialEq, Eq)]
pub struct UploadReleaseAssetInput {
    pub owner: String,
    pub repo: String,
    pub tag: String,
    pub file_path: String,
    pub clobber: bool,
}

impl UploadReleaseAssetInput {
    pub open spec fn invalid(&self) -> Option<ErrorView> {
        first_failure(
            release_check(self.owner@, self.repo@, self.tag@),
            required_check(self.file_path@, "file_path is required"@),
        )
    }

    pub fn validate(&self) -> (r: Result<(), AppError>)
        ensures
            check_result(self.invalid(), r),
    {
        require_release(self.owner.as_str(), self.repo.as_str(), self.tag.as_str())?;
        require_text(self.file_path.as_str(), "file_path is required")
    }
}

#[derive(Debug, Clone, PartialEq, Eq)]
pub struct DeleteReleaseAssetInput {
    pub owner: String,
    pub repo: String,
    pub tag: String,
    pub asset_name: String,
}

impl DeleteReleaseAssetInput {
    pub open spec fn invalid(&self) -> Option<ErrorView> {
        first_failure(
            release_check(self.owner@, self.repo@, self.tag@),
            required_check(self.asset_name@, "asset_name is required"@),
        )
    }

    pub fn validate(&self) -> (r: Result<(), AppError>)
        ensures
            check_result(self.invalid(), r),
    {
        require_release(self.owner.as_str(), self.repo.as_str(), self.tag.as_str())?;
        require_text(self.asset_name.as_str(), "asset_name is required")
    }
}

/// `[flag]` when `on` holds.
pub open spec fn switch(flag: Seq<char>, on: bool) -> Seq<Seq<char>> {
    if on {
        seq![flag]
    } else {
        Seq::empty()
    }
}

/// `["{flag}=true"]` or `["{flag}=false"]` when a setting is given.
pub open spec fn setting(flag: Seq<char>, value: Option<bool>) -> Seq<Seq<char>> {
    match value {
        Some(v) => seq![flag + "="@ + bool_text(v)],
        None => Seq::empty(),
    }
}

fn push_setting(args: &mut Vec<String>, flag: &str, value: Option<bool>)
    ensures
        texts(final(args)@) == texts(old(args)@) + setting(flag@, value),
{
    let ghost start = texts(args@);
    match value {
        Some(v) => {
            let text = bool_string(v);
            let head = concat(flag, "=");
            push_arg(args, concat(head.as_str(), text.as_str()));
        },
        None => {},
    }
    assert(texts(args@) =~= start + setting(flag@, value));
}

pub open spec fn release_ref(tag: Seq<char>, owner: Seq<char>, repo: Seq<char>) -> Seq<Seq<char>> {
    seq![tag, "--repo"@, slash(owner, repo)]
}

pub open spec fn create_args(input: CreateReleaseInput) -> Seq<Seq<char>> {
    release_ref(input.tag@, input.owner@, input.repo@) + optional_pair("--title"@, input.title)
        + optional_pair("--notes"@, input.notes) + optional_pair("--target"@, input.target)
        + switch("--draft"@, input.draft) + switch("--prerelease"@, input.prerelease)
}

pub open spec fn delete_args(input: DeleteReleaseInput) -> Seq<Seq<char>> {
    release_ref(input.tag@, input.owner@, input.repo@) + seq!["--yes"@] + switch(
        "--cleanup-tag"@,
        input.cleanup_tag,
    )
}

pub open spec fn edit_args(input: EditReleaseInput) -> Seq<Seq<char>> {
    release_ref(input.tag@, input.owner@, input.repo@) + optional_pair("--title"@, input.title)
        + optional_pair("--notes"@, input.notes) + setting("--draft"@, input.draft) + setting(
        "--prerelease"@,
        input.prerelease,
    )
}

pub open spec fn upload_args(input: UploadReleaseAssetInput) -> Seq<Seq<char>> {
    seq![input.tag@, input.file_path@, "--repo"@, slash(input.owner@, input.repo@)] + switch(
        "--clobber"@,
        input.clobber,
    )
}

pub open spec fn delete_asset_args(input: DeleteReleaseAssetInput) -> Seq<Seq<char>> {
    seq![input.tag@, input.asset_name@, "--repo"@, slash(input.owner@, input.repo@), "--yes"@]
}

pub open spec fn list_args(owner: Seq<char>, repo: Seq<char>, limit: u16) -> Seq<Seq<char>> {
    seq!["--repo"@, slash(owner, repo), "--limit"@, decimal(limit as nat)]
}

pub struct ReleasesService<R: Runner> {
    registry: CommandRegistry,
    executor: CommandExecutor<R>,
    policy_guard: PolicyGuard,
}

impl<R: Runner> ReleasesService<R> {
    /// The commands this service may run.
    pub closed spec fn commands(&self) -> Seq<CommandSpecView> {
        self.registry@
    }

    /// Whether destructive commands are skipped.
    pub closed spec fn safe_mode(&self) -> bool {
        self.executor.safe_mode()
    }

    /// The executor that runs the commands.
    pub closed spec fn execution(&self) -> CommandExecutor<R> {
        self.executor
    }

    pub fn new(registry: CommandRegistry, executor: CommandExecutor<R>) -> (s: Self)
        ensures
            s.commands() == registry@,
            s.safe_mode() == executor.safe_mode(),
            s.execution() == executor,
    {
        ReleasesService { registry, executor, policy_guard: PolicyGuard }
    }

    /// Lists the releases of a repository; the result is the command's JSON
    /// output.
    pub fn list(&self, owner: &str, repo: &str, limit: u16, trace: &TraceContext) -> (r: Result<
        String,
        AppError,
    >)
        ensures
            checked_payload(
                first_failure(owner_repo_check(owner@, repo@), limit_check(limit)),
                self.execution(),
                self.commands(),
                "release.list"@,
                list_args(owner@, repo@, limit),
                r,
            ),
    {
        require_owner_repo(owner, repo)?;
        require_limit(limit)?;
        let mut args = no_args();
        push_str_arg(&mut args, "--repo");
        push_arg(&mut args, slash_join(owner, repo));
        push_str_arg(&mut args, "--limit");
        push_arg(&mut args, decimal_string(limit as u64));
        assert(texts(args@) =~= list_args(owner@, repo@, limit));
        run_payload(&self.registry, &self.executor, "release.list", &args, trace)
    }

    /// Publishes a release and reads the URL that the command prints.
    pub fn create(
        &self,
        permission: RepoPermission,
        input: &CreateReleaseInput,
        trace: &TraceContext,
    ) -> (r: Result<ReleaseCreated, AppError>)
        ensures
            match first_failure(
                guard_outcome(RepoPermission::Write, permission, "release.create"@),
                input.invalid(),
            ) {
                Some(v) => r matches Err(e) && e.is(v),
                None => parsed_result(
                    self.execution(),
                    self.commands(),
                    "release.create"@,
                    create_args(*input),
                    r,
                    release_created_parse(input.tag@),
                ),
            },
    {
        self.policy_guard.require(RepoPermission::Write, permission, "release.create")?;
        input.validate()?;
        let mut args = no_args();
        push_str_arg(&mut args, input.tag.as_str());
        push_str_arg(&mut args, "--repo");
        push_arg(&mut args, slash_join(input.owner.as_str(), input.repo.as_str()));
        push_optional_pair(&mut args, "--title", &input.title);
        push_optional_pair(&mut args, "--notes", &input.notes);
        push_optional_pair(&mut args, "--target", &input.target);
        if input.draft {
            push_str_arg(&mut args, "--draft");
        }
        if input.prerelease {
            push_str_arg(&mut args, "--prerelease");
        }
        assert(texts(args@) =~= create_args(*input));
        let output = run_payload(&self.registry, &self.executor, "release.create", &args, trace)?;
        let r = parse_release_created_output(input.tag.as_str(), output.as_str());
        assert(release_created_parse(input.tag@)(output@, r));
        r
    }

    pub fn delete(&self, permission: RepoPermission, input: &DeleteReleaseInput, trace: &TraceContext) -> (r:
        Result<(), AppError>)
        ensures
            guarded_unit(
                RepoPermission::Admin,
                permission,
                "release.delete"@,
                input.invalid(),
                self.execution(),
                self.commands(),
                delete_args(*input),
                r,
            ),
    {
        self.policy_guard.require(RepoPermission::Admin, permission, "release.delete")?;
        input.validate()?;
        let mut args = no_args();
        push_str_arg(&mut args, input.tag.as_str());
        push_str_arg(&mut args, "--repo");
        push_arg(&mut args, slash_join(input.owner.as_str(), input.repo.as_str()));
        push_str_arg(&mut args, "--yes");
        if input.cleanup_tag {
            push_str_arg(&mut args, "--cleanup-tag");
        }
        assert(texts(args@) =~= delete_args(*input));
        run_unit(&self.registry, &self.executor, "release.delete", &args, trace)
    }

    pub fn edit(&self, permission: RepoPermission, input: &EditReleaseInput, trace: &TraceContext) -> (r:
        Result<(), AppError>)
        ensures
            guarded_unit(
                RepoPermission::Write,
                permission,
                "release.edit"@,
                input.invalid(),
                self.execution(),
                self.commands(),
                edit_args(*input),
                r,
            ),
    {
        self.policy_guard.require(RepoPermission::Write, permission, "release.edit")?;
        input.validate()?;
        let mut args = no_args();
        push_str_arg(&mut args, input.tag.as_str());
        push_str_arg(&mut args, "--repo");
        push_arg(&mut args, slash_join(input.owner.as_str(), input.repo.as_str()));
        push_optional_pair(&mut args, "--title", &input.title);
        push_optional_pair(&mut args, "--notes", &input.notes);
        push_setting(&mut args, "--draft", input.draft);
        push_setting(&mut args, "--prerelease", input.prerelease);
        assert(texts(args@) =~= edit_args(*input));
        run_unit(&self.registry, &self.executor, "release.edit", &args, trace)
    }

    pub fn upload_asset(
        &self,
        permission: RepoPermission,
        input: &UploadReleaseAssetInput,
        trace: &TraceContext,
    ) -> (r: Result<(), AppError>)
        ensures
            guarded_unit(
                RepoPermission::Write,
                permission,
                "release.asset.upload"@,
                input.invalid(),
                self.execution(),
                self.commands(),
                upload_args(*input),
                r,
            ),
    {
        self.policy_guard.require(RepoPermission::Write, permission, "release.asset.upload")?;
        input.validate()?;
        let mut args = no_args();
        push_str_arg(&mut args, input.tag.as_str());
        push_str_arg(&mut args, input.file_path.as_str());
        push_str_arg(&mut args, "--repo");
        push_arg(&mut args, slash_join(input.owner.as_str(), input.repo.as_str()));
        if input.clobber {
            push_str_arg(&mut args, "--clobber");
        }
        assert(texts(args@) =~= upload_args(*input));
        run_unit(&self.registry, &self.executor, "release.asset.upload", &args, trace)
    }

    pub fn delete_asset(
        &self,
        permission: RepoPermission,
        input: &DeleteReleaseAssetInput,
        trace: &TraceContext,
    ) -> (r: Result<(), AppError>)
        ensures
            guarded_unit(
                RepoPermission::Admin,
                permission,
                "release.asset.delete"@,
                input.invalid(),
                self.execution(),
                self.commands(),
                delete_asset_args(*input),
                r,
            ),
    {
        self.policy_guard.require(RepoPermission::Admin, permission, "release.asset.delete")?;
        input.validate()?;
        let mut args = no_args();
        push_str_arg(&mut args, input.tag.as_str());
        push_str_arg(&mut args, input.asset_name.as_str());
        push_str_arg(&mut args, "--repo");
        push_arg(&mut args, slash_join(input.owner.as_str(), input.repo.as_str()));
        push_str_arg(&mut args, "--yes");
        assert(texts(args@) =~= delete_asset_args(*input));
        run_unit(&self.registry, &self.executor, "release.asset.delete", &args, trace)
    }
}

} // verus!
